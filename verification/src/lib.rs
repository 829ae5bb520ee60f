//! A vault that takes payment on this chain for gas sent out on an EVM chain.
//!
//! A requester pays the vault and asks for `amount_wei` to be sent to an EVM
//! address. The vault has a faucet call signed by an outside signing service,
//! and keeps the request pending until the service reports how the call went:
//! a success keeps the payment, a failure refunds it.
//!
//! The state and its rules live in [`pallet`], the byte formats in [`abi`] and
//! [`messages`], and the calls into outside crates in [`outside`]. What holds of
//! the calls, one by one and together, is proved in [`laws`] and [`solvency`].
pub mod abi;
pub mod bytes;
pub mod config;
pub mod flow;
pub mod laws;
pub mod messages;
pub mod outside;
pub mod pallet;
pub mod requests;
pub mod rules;
pub mod solvency;
pub mod types;

pub use config::Account;
pub use config::Config;
pub use pallet::Pallet;
pub use types::DispatchResult;
pub use types::Error;
pub use types::Event;
pub use types::EvmTx;
pub use types::PendingData;
pub use types::SEPOLIA_VAULT_ADDRESS;
