//! A ledger-resident governance and continuous-payment protocol.
//!
//! A multisig-controlled organization (a [`state::Dao`]) owns token-distribution
//! streams ([`state::Stream`]) that pay out continuously to holders of a
//! qualifying staked token ([`state::Stake`]) with an open connection
//! ([`state::Connection`]) to the stream.
//!
//! Every operation is a single, all-or-nothing state transition over the
//! records it names. Wall-clock time and the funding pool's balance are
//! always explicit parameters: the library never reads hidden global state,
//! and the hosting ledger performs the actual token movements from the
//! amounts these functions return.

pub mod accrual;
pub mod errors;
pub mod fees;
pub mod governance;
pub mod lifecycle;
pub mod state;
