//! The pages of the panel.

pub mod async_page;
pub mod page_trait;
pub mod power;
pub mod rows;
pub mod system_info;
