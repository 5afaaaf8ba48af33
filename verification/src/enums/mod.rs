pub mod platform_enum;
pub mod roles_enum;
pub mod subscription_enum;
