
pub mod config;
pub mod decimal;
pub mod http;
pub mod inference;
pub mod status;
pub mod supabase;
