pub mod initialize;
pub mod initialize_launchpad;
pub mod initialize_pool;
pub mod purchase;
pub mod sell;
pub mod set_admin;
pub mod set_fee_pool;
pub mod start_presale;

pub use initialize::{initialize, InitArgs, Initialize};
pub use initialize_launchpad::{initialize_launchpad, InitLaunchpadArgs, InitializeLaunchpad};
pub use initialize_pool::{initialize_pool, PoolInitialize};
pub use purchase::{purchase, Purchase, PurchaseArgs};
pub use sell::{sell, Sell, SellArgs};
pub use set_admin::{set_admin, SetAdmin, SetAdminArgs};
pub use set_fee_pool::{set_fee_pool, SetFeePool, SetFeePoolArgs};
pub use start_presale::{start_presale, StartPresale};
