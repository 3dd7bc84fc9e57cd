//! Credential and bearer-token lifecycle for a service with signup, login and account
//! activation.
//!
//! The three use cases are resumable workflows.  Each one is a transition function from the
//! workflow's state and a collaborator's reply to either the next state together with the
//! effect to perform, or the final result.  Hashing, signing and storage are carried out by
//! the caller; every decision in between is made, and proved, here.
//!
//! * [`signup`], [`login`] and [`activate`] hold the workflows.
//! * [`effect`] is their boundary: effects, replies and steps.
//! * [`token`], [`user`], [`config`], [`error`] and [`timestamp`] hold the records they work on.
//! * [`trace`] composes steps into whole runs, and [`laws`] proves what every run obeys.

pub mod activate;
pub mod config;
pub mod effect;
pub mod error;
pub mod laws;
pub mod login;
pub mod model;
pub mod signup;
pub mod timestamp;
pub mod token;
pub mod trace;
pub mod user;
