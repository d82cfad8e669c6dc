//! Nftables Builder, the verified part.
//!
//! A policy document names interfaces, hosts, host groups, networks,
//! services and chains, and holds filter and address translation rules.
//! The rule compiler turns it into the lines of an nftables script. The
//! script is installed by a privileged process that the composer of
//! rulesets talks to over a channel of hexadecimal lines.
//!
//! * [`model`]: the policy document and its mathematical view.
//! * [`resolve`]: names to addresses, ports, control message types, chains
//!   and interfaces.
//! * [`reference`]: the references of tables to chains and of chains to
//!   interfaces.
//! * [`rule`]: when a rule applies to an address family and a transport, and
//!   the clauses of a rule line.
//! * [`script`]: the built-in protections, logging clauses and counters, and
//!   the insertion of lines behind a marker.
//! * [`filter`]: the sets and chains of the filter table.
//! * [`translate`]: the two address translation tables.
//! * [`compile`]: the whole script, or the first reference that leads
//!   nowhere.
//! * [`laws`]: what holds of the compiler on every policy document.
//! * [`counted`]: counters in the text of the script.
//! * [`hexcode`], [`cipher`], [`channel`]: the lines of the installer
//!   channel.
//! * [`installer`]: the privileged installer as a state machine.
//! * [`accounts`]: user records and the rule of one session at a time.
//! * [`text`]: helpers on text.
//!
//! Every executable function is verified against a contract over the views
//! of its arguments: a text is a `Seq<char>`, a script a `Seq<Seq<char>>`.
//! What is believed without proof are the contracts of five calls into
//! other code: `hex::encode`, `hex::decode`, `openssl::symm::encrypt`,
//! `openssl::symm::decrypt` and `String::from_utf8`.

pub mod accounts;
pub mod channel;
pub mod cipher;
pub mod compile;
pub mod counted;
pub mod filter;
pub mod hexcode;
pub mod installer;
pub mod laws;
pub mod model;
pub mod reference;
pub mod resolve;
pub mod rule;
pub mod script;
pub mod text;
pub mod translate;
