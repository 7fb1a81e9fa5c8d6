use vstd::prelude::*;

verus! {

/// A reference that a link spannable makes.
pub enum PostLink {
    Quote { post_no: u64 },
    /// A quote of a post that has since been deleted.
    Dead { post_no: u64 },
    UrlLink { link: String },
    BoardLink { board_code: String },
    SearchLink { board_code: String, search_query: String },
    ThreadLink { board_code: String, thread_no: u64, post_no: u64 },
}

/// What one inline annotation of a comment is.
pub enum SpannableData {
    Link(PostLink),
    Spoiler,
    GreenText,
}

/// One inline annotation attached to a span of the parsed text.
pub struct Spannable {
    pub spannable_data: SpannableData,
}

/// A post comment as the parser hands it over.
pub struct PostCommentParsed {
    pub original_comment_text: String,
    pub parsed_comment_text: String,
    pub spannables: Vec<Spannable>,
}

/// The leaf tag of a spannable: one for each concrete host subtype.
#[derive(Clone, Copy, Debug, PartialEq, Eq, Structural)]
pub enum SpanKind {
    Quote,
    DeadQuote,
    UrlLink,
    BoardLink,
    SearchLink,
    ThreadLink,
    Spoiler,
    GreenText,
}

/// The leaf tag of `d`, reading through the nested link tag.
pub open spec fn kind_of(d: SpannableData) -> SpanKind {
    match d {
        SpannableData::Link(link) => match link {
            PostLink::Quote { .. } => SpanKind::Quote,
            PostLink::Dead { .. } => SpanKind::DeadQuote,
            PostLink::UrlLink { .. } => SpanKind::UrlLink,
            PostLink::BoardLink { .. } => SpanKind::BoardLink,
            PostLink::SearchLink { .. } => SpanKind::SearchLink,
            PostLink::ThreadLink { .. } => SpanKind::ThreadLink,
        },
        SpannableData::Spoiler => SpanKind::Spoiler,
        SpannableData::GreenText => SpanKind::GreenText,
    }
}

impl SpannableData {
    /// The leaf tag of this annotation.
    pub fn kind(&self) -> (r: SpanKind)
        ensures
            r == kind_of(*self),
    {
        match self {
            SpannableData::Link(link) => match link {
                PostLink::Quote { .. } => SpanKind::Quote,
                PostLink::Dead { .. } => SpanKind::DeadQuote,
                PostLink::UrlLink { .. } => SpanKind::UrlLink,
                PostLink::BoardLink { .. } => SpanKind::BoardLink,
                PostLink::SearchLink { .. } => SpanKind::SearchLink,
                PostLink::ThreadLink { .. } => SpanKind::ThreadLink,
            },
            SpannableData::Spoiler => SpanKind::Spoiler,
            SpannableData::GreenText => SpanKind::GreenText,
        }
    }
}

} // verus!
