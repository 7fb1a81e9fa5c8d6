use vstd::prelude::*;
use crate::model::{kind_of, PostCommentParsed, PostLink, SpanKind, Spannable, SpannableData};

verus! {

/// One constructor argument handed to the host.
#[derive(Debug, PartialEq, Eq)]
pub enum HostValue {
    /// A host 64-bit signed integer.
    Long(i64),
    /// A host string, allocated from this text.
    Text(String),
}

/// The mathematical value of a constructor argument.
pub enum ArgModel {
    Long(i64),
    Text(Seq<char>),
}

impl View for HostValue {
    type V = ArgModel;

    open spec fn view(&self) -> ArgModel {
        match self {
            HostValue::Long(v) => ArgModel::Long(*v),
            HostValue::Text(s) => ArgModel::Text(s@),
        }
    }
}

/// A host object to build for one spannable: the leaf tag that selects its
/// concrete subtype, and the arguments of that subtype's constructor.
pub struct SpannableObject {
    pub kind: SpanKind,
    pub args: Vec<HostValue>,
}

impl View for SpannableObject {
    type V = (SpanKind, Seq<ArgModel>);

    open spec fn view(&self) -> (SpanKind, Seq<ArgModel>) {
        (self.kind, self.args@.map_values(|a: HostValue| a@))
    }
}

/// The composite host object for a whole comment.
pub struct CommentObject {
    pub comment_text_raw: String,
    pub comment_text_parsed: String,
    pub spannables: Vec<SpannableObject>,
}

/// How a post or thread number travels to the host: as the signed 64-bit
/// integer with the same bits.
pub open spec fn host_long(n: u64) -> i64 {
    n as i64
}

/// The constructor arguments for annotation `d`: its payload, in order.
pub open spec fn args_of(d: SpannableData) -> Seq<ArgModel> {
    match d {
        SpannableData::Link(link) => match link {
            PostLink::Quote { post_no } => seq![ArgModel::Long(host_long(post_no))],
            PostLink::Dead { post_no } => seq![ArgModel::Long(host_long(post_no))],
            PostLink::UrlLink { link } => seq![ArgModel::Text(link@)],
            PostLink::BoardLink { board_code } => seq![ArgModel::Text(board_code@)],
            PostLink::SearchLink { board_code, search_query } => seq![
                ArgModel::Text(board_code@),
                ArgModel::Text(search_query@),
            ],
            PostLink::ThreadLink { board_code, thread_no, post_no } => seq![
                ArgModel::Text(board_code@),
                ArgModel::Long(host_long(thread_no)),
                ArgModel::Long(host_long(post_no)),
            ],
        },
        SpannableData::Spoiler => seq![],
        SpannableData::GreenText => seq![],
    }
}

/// The host object that stands for annotation `d`.
pub open spec fn object_of(d: SpannableData) -> (SpanKind, Seq<ArgModel>) {
    (kind_of(d), args_of(d))
}

/// The host objects that stand for a sequence of annotations, index by index.
pub open spec fn objects_of(v: Seq<Spannable>) -> Seq<(SpanKind, Seq<ArgModel>)> {
    v.map_values(|s: Spannable| object_of(s.spannable_data))
}

/// The values of a sequence of planned host objects.
pub open spec fn views_of(v: Seq<SpannableObject>) -> Seq<(SpanKind, Seq<ArgModel>)> {
    v.map_values(|o: SpannableObject| o@)
}

/// The composite that stands for comment `c`.
pub open spec fn comment_of(r: CommentObject, c: PostCommentParsed) -> bool {
    &&& r.comment_text_raw@ == c.original_comment_text@
    &&& r.comment_text_parsed@ == c.parsed_comment_text@
    &&& views_of(r.spannables@) == objects_of(c.spannables@)
}

fn long_arg(n: u64) -> (r: HostValue)
    ensures
        r@ == ArgModel::Long(host_long(n)),
{
    HostValue::Long(#[verifier::truncate] (n as i64))
}

fn text_arg(s: &String) -> (r: HostValue)
    ensures
        r@ == ArgModel::Text(s@),
{
    HostValue::Text(s.clone())
}

/// The host object for one annotation: the subtype its tag selects, and its
/// payload as constructor arguments, strings copied and numbers carried bit
/// for bit.
pub fn spannable_object(spannable: &Spannable) -> (r: SpannableObject)
    ensures
        r@ == object_of(spannable.spannable_data),
{
    let data = &spannable.spannable_data;
    let mut args: Vec<HostValue> = Vec::new();
    match data {
        SpannableData::Link(link) => match link {
            PostLink::Quote { post_no } => {
                args.push(long_arg(*post_no));
            },
            PostLink::Dead { post_no } => {
                args.push(long_arg(*post_no));
            },
            PostLink::UrlLink { link } => {
                args.push(text_arg(link));
            },
            PostLink::BoardLink { board_code } => {
                args.push(text_arg(board_code));
            },
            PostLink::SearchLink { board_code, search_query } => {
                args.push(text_arg(board_code));
                args.push(text_arg(search_query));
            },
            PostLink::ThreadLink { board_code, thread_no, post_no } => {
                args.push(text_arg(board_code));
                args.push(long_arg(*thread_no));
                args.push(long_arg(*post_no));
            },
        },
        SpannableData::Spoiler => {},
        SpannableData::GreenText => {},
    }
    let r = SpannableObject { kind: data.kind(), args };
    assert(r@.1 =~= args_of(*data));
    r
}

/// The host objects for a sequence of annotations, in the same order: one
/// for each, none skipped or repeated.
pub fn spannables_objects(spannables: &Vec<Spannable>) -> (r: Vec<SpannableObject>)
    ensures
        views_of(r@) == objects_of(spannables@),
{
    let mut out: Vec<SpannableObject> = Vec::new();
    let mut i: usize = 0;
    while i < spannables.len()
        invariant
            i <= spannables@.len(),
            views_of(out@) =~= objects_of(spannables@.subrange(0, i as int)),
        decreases spannables@.len() - i,
    {
        let ghost prev = out@;
        let o = spannable_object(&spannables[i]);
        out.push(o);
        proof {
            let next = spannables@.subrange(0, i + 1);
            assert(next =~= spannables@.subrange(0, i as int).push(spannables@[i as int]));
            assert(out@ =~= prev.push(o));
            assert(views_of(out@) =~= views_of(prev).push(o@));
            assert(objects_of(next) =~= objects_of(spannables@.subrange(0, i as int)).push(
                object_of(spannables@[i as int].spannable_data),
            ));
        }
        i += 1;
    }
    assert(spannables@.subrange(0, i as int) =~= spannables@);
    out
}

/// The composite host object for comment `comment`: both texts copied, and
/// one object for each annotation, in order.
pub fn comment_object(comment: &PostCommentParsed) -> (r: CommentObject)
    ensures
        comment_of(r, *comment),
{
    CommentObject {
        comment_text_raw: comment.original_comment_text.clone(),
        comment_text_parsed: comment.parsed_comment_text.clone(),
        spannables: spannables_objects(&comment.spannables),
    }
}

} // verus!
