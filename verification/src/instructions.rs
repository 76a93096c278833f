pub mod change_spot_price;
pub mod sol_fulfill_buy;
pub mod withdraw_sell;
