pub mod picker_player;
pub mod picker_laws;
pub mod proposal_laws;
