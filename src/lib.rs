//! Marshalling of a parsed post comment into the host runtime's object model.
//!
//! The library describes, as plain values, the object graph that the host
//! must hold for a parsed comment (`mapper`), and drives the construction of
//! that graph one boundary call at a time (`session`), so that any failure on
//! the boundary aborts the whole mapping with no output.
pub mod model;
pub mod names;
pub mod mapper;
pub mod session;
pub mod laws;

pub use mapper::{comment_object, spannable_object, spannables_objects, ArgModel, CommentObject, HostValue, SpannableObject};
pub use model::{PostCommentParsed, PostLink, SpanKind, Spannable, SpannableData};
pub use names::{
    comment_class_name, element_class_name, spannable_array_field_name, spannable_array_signature,
    spannable_class_name, string_signature,
};
pub use session::{advance, next_of, run, start, step_at, step_count, ErrorKind, HostEvent, HostStep, MappingError, MappingSession, Next, Progress, TextField};
