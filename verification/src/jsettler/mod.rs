//! The numbering that the JSettlers client gives to the board, the resources,
//! the game phases and the actions, how it maps onto this library's own, and
//! the bookkeeping of the hands that the client reports.
pub mod tables;
pub mod settle;
pub mod hand;
pub mod phase;
pub mod updates;
pub mod layout;
pub mod discard;
pub mod decode;
pub mod trade_table;
pub mod trade_laws;
