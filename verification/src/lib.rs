pub mod clean_room;
pub mod clock;
pub mod config;
pub mod errors;
pub mod freetrack;
pub mod ifacialmocap;
pub mod keyboard;
pub mod npclient;
pub mod output_layer;
pub mod passthrough;
pub mod paths;
pub mod process_filter;
pub mod registry;
pub mod release_package;
pub mod runtime;
pub mod stabilizer;
pub mod state;
pub mod text;
pub mod touch;
pub mod vmc;
pub mod vmc_dispatch;
pub mod vmc_receiver;
pub mod version_bump;
