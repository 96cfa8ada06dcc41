//! Settlement rules of the Tarrowyn world repository: input validation,
//! bounded retention of histories, and the decision logic of the frontier,
//! governance, land-lease and profession systems, stated and proved over
//! mathematical models.
pub mod text;
pub mod errors;
pub mod retention;
pub mod events;
pub mod ledger;
pub mod frontier;
pub mod migration;
pub mod claims;
pub mod governance;
pub mod upkeep;
pub mod taxes;
pub mod professions;
pub mod knowledge;
pub mod combat;
pub mod travel;
pub mod storehouse;
pub mod homestead;
pub mod watch;
pub mod gathering;
pub mod farming;
pub mod households;
pub mod journey;
pub mod forge;
pub mod cooperation;
pub mod lessons;
pub mod chat;
pub mod chronicle;
pub mod placement;
pub mod property;
pub mod replay;
pub mod adventurer;
pub mod market;
pub mod region;
pub mod restore;
pub mod commands;
