//! A verified core of the Neon Node.js bindings: the bookkeeping that guards
//! borrows of JavaScript binary data, the loan ledger of the VM lock, the
//! BigInt digit conversions, the arguments of calls, and the native classes,
//! functions, tasks and emitters of the test modules, each stated over a
//! mathematical model.

pub mod arguments;
pub mod bigint;
pub mod boxed;
pub mod classes;
pub mod events;
pub mod exports;
pub mod ledger;
pub mod loans;
pub mod pokemon;
pub mod tasks;
pub mod text;
pub mod typescript;
pub mod values;
