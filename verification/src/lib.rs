//! Generates portable shell scripts that size GitHub repositories.
//!
//! The core of the library is the script emitter: given an owner, an ordered
//! list of repository names, a shell dialect, an output destination and
//! format, and filename/command templates, it deterministically produces the
//! text of a script whose statements invoke a sizing command once per
//! repository, with defensive quoting and dialect-correct redirection.

pub mod enums;
pub mod laws;
pub mod lister;
pub mod script;
pub mod sizer;
pub mod template;
