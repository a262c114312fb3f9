//! A database-less bulletin board, without the I/O.
//!
//! Visitors submit a name, a subject, a body and optionally an image. The
//! board keeps the posts in memory and shows them on one page, newest first.
//! This crate holds the decisions of such a service and proves them: how an
//! uploaded form is read part by part, which files are admitted as images and
//! under which name they are stored, when a submission becomes a post, and what
//! the page looks like. Reading the request, touching the disk and answering
//! the client are left to the program around it, which is told what to do by
//! the values that the functions here return.
//!
//! * [`upload`] reads a form part by part and gathers the submission.
//! * [`media`] admits files as images and names the files that are kept.
//! * [`handler`] answers the two requests: the listing and a submission.
//! * [`store`] holds the posts; [`post`] is one of them.
//! * [`render`] writes the page; [`escape`] makes text safe for it.
//! * [`reply`] is what a client is told; [`journal`] is what the error log is
//!   told.
//! * [`text`] and [`ident`] hold the handling of text and of identifiers.

pub mod escape;
pub mod handler;
pub mod ident;
pub mod journal;
pub mod media;
pub mod post;
pub mod render;
pub mod reply;
pub mod store;
pub mod text;
pub mod upload;
