pub mod engine;
pub mod lobby;
pub mod phase;
pub mod position;
pub mod role;
pub mod round;
pub mod status;

pub use engine::EngineState;
pub use lobby::LobbyStatus;
pub use phase::{
    Activity, Day, DayIndex, EveningActivity, MorningActivity, NightActivity, NoonActivity,
};
pub use position::Position;
pub use role::Role;
pub use round::RoundId;
pub use status::Status;
