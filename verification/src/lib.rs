//! The core of esh, a small interactive command shell.
//!
//! The shell reads a line, carries out its first command and reports how that
//! went, again and again until `exit` ends it. A command is either a builtin,
//! which the shell runs inside its own process, or the name of a program,
//! which the shell launches and waits for.
//!
//! This crate holds what the shell decides, with a contract on every decision:
//!
//! - [`token`] cuts a line into the commands of a pipeline and their words;
//! - [`registry`] names the builtins;
//! - [`builtin`] says what each builtin does and answers;
//! - [`execute`] tells builtins from programs and runs the builtins;
//! - [`launch`] says what parent and child do after a fork;
//! - [`wait`] waits for a child and reads how it ended;
//! - [`shell`] puts one turn of the loop together and says what follows.
//!
//! What it leaves to its caller is reading and printing, the fork itself and
//! the replacing of the child's process image.
//!
//! Everything is proved but three contracts, which are stated and believed:
//! those of the two calls into the system, `chdir` and `waitpid` of the crate
//! `nix`, and that of `String::push` in [`std_specs`]. Of the two calls hardly
//! anything is claimed, so what is said of a builtin or of a wait holds
//! whatever the system answers.

pub mod builtin;
pub mod error;
pub mod execute;
pub mod launch;
mod os;
pub mod registry;
pub mod shell;
pub mod std_specs;
pub mod token;
pub mod wait;
