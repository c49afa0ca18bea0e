//! Fair allocation of scarce tickets.
//!
//! The library decides who receives a ticket when more people ask than
//! there are tickets, in a way that cannot be predicted beforehand, can be
//! checked afterwards, and gives the same answer whenever it is asked the
//! same question. It also holds the rules by which tickets are priced,
//! sold and refunded. Storage, payments and the tokens themselves are the
//! caller's business.
//!
//! * [`ledger`] is what the library reads of the host chain: a reading of
//!   clock, height and chain hash that the caller hands in.
//! * [`entropy`] derives byte strings from such a reading and tells fresh
//!   entropy from reused.
//! * [`commitment`] lets a participant lock a secret in and open it later.
//! * [`vrf`] derives random outputs from a seed, each with a proof that
//!   anyone can check by deriving it again.
//! * [`allocation`], [`lottery`], [`whitelist`] and [`time_weighted`] are
//!   the allocation engine: the selection strategies, the rate limit on
//!   registrations and the fairness score.
//! * [`contract`] is one round from registration to its published results.
//! * [`ticketing`] prices tickets and rules on mints, sales and refunds.
//! * [`identity`] and [`digest`] hold participants and byte strings.
//!
//! Every function is proved against the contract written on it. One thing
//! is taken on trust: that the digest in [`digest`] is SHA-256.

pub mod digest;
pub mod identity;
pub mod ledger;
pub mod entropy;
pub mod vrf;
pub mod commitment;
pub mod allocation;
pub mod lottery;
pub mod whitelist;
pub mod time_weighted;
pub mod contract;
pub mod ticketing;
