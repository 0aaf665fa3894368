//! An on-chain notifier for cross-chain intent settlement: it turns a
//! settlement notice into the event line that indexers read, and models the
//! hosted instance's lifecycle and its append-only event stream.

pub mod notice;
pub mod router;

pub use notice::settlement_line;
pub use router::{Deployment, DeploymentModel, IntentRouter, RouterError};
