//! Reading a secret line of text without echoing it back to the screen.
//!
//! The crate separates the portable logic of a password read from the
//! platform calls it needs. `fixes_newline` strips the trailing line
//! terminator from a raw line, `zero_memory` erases a secret buffer in
//! place, and `PasswordRead` is the step-by-step protocol a platform
//! driver follows to suppress echo around a read and restore the
//! terminal afterwards on every exit path. `read_password` and its
//! companions read from standard input or from a caller-supplied
//! source.

pub mod reader;
pub mod sanitize;
pub mod source;
pub mod terminal;
pub mod zeroize;

pub use reader::finish_secret;
pub use reader::prompt_password_stderr;
pub use reader::prompt_password_stdout;
pub use reader::read_password;
pub use reader::read_password_with_reader;
pub use sanitize::fixes_newline;
pub use sanitize::sanitized;
pub use source::SecretSource;
pub use terminal::Action;
pub use terminal::Event;
pub use terminal::PasswordRead;
pub use zeroize::all_zero;
pub use zeroize::zero_memory;
