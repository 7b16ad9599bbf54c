pub mod add_moderator;
pub mod approve_withdraw;
pub mod contribute;
pub mod contributesol;
pub mod contributetoken;
pub mod create_campaign;
pub mod end_campaign;
pub mod initialize_factory;
pub mod initialize_points;
pub mod pause_campaign;
pub mod purchase_multiplier_tier;
pub mod remove_moderator;
pub mod set_acceptable_tokens;
pub mod update_campaign;
pub mod update_platform_fee;
pub mod withdraw;
