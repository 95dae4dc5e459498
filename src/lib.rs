//! Verified core of an interactive wizard that assembles structured commit
//! messages: the windowed selection list, the line editor's key handling,
//! the wizard's step order and the message assembler.
pub mod commit;
