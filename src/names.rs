use vstd::prelude::*;
use vstd::string::StringExecFns;
use crate::model::SpanKind;
use crate::session::TextField;

verus! {

/// Package of the composite comment type, in the host's internal form.
pub open spec fn comment_package() -> Seq<char> {
    "com/github/k1rakishou/core_parser/comment/"@
}

/// Package of the spannable types, in the host's internal form.
pub open spec fn spannables_package() -> Seq<char> {
    "com/github/k1rakishou/core_parser/comment/span/"@
}

/// Simple name of the interface that every spannable subtype implements.
pub open spec fn element_simple_name() -> Seq<char> {
    "IPostCommentSpannableData"@
}

/// The name under which each leaf tag's subtype is nested in the interface.
pub open spec fn tag_of(k: SpanKind) -> Seq<char> {
    match k {
        SpanKind::Quote => "Quote"@,
        SpanKind::DeadQuote => "DeadQuote"@,
        SpanKind::UrlLink => "UrlLink"@,
        SpanKind::BoardLink => "BoardLink"@,
        SpanKind::SearchLink => "SearchLink"@,
        SpanKind::ThreadLink => "ThreadLink"@,
        SpanKind::Spoiler => "Spoiler"@,
        SpanKind::GreenText => "GreenText"@,
    }
}

/// Fully qualified name of the composite comment type.
pub open spec fn comment_class_name_of() -> Seq<char> {
    comment_package() + "PostCommentParsed"@
}

/// Fully qualified name of the spannable interface, the array's element type.
pub open spec fn element_class_name_of() -> Seq<char> {
    spannables_package() + element_simple_name()
}

/// Type descriptor of the composite's spannable array field.
pub open spec fn spannable_array_signature_of() -> Seq<char> {
    "[L"@ + spannables_package() + "PostCommentSpannable;"@
}

/// Fully qualified name of the concrete subtype for leaf tag `k`.
pub open spec fn spannable_class_name_of(k: SpanKind) -> Seq<char> {
    element_class_name_of() + "$"@ + tag_of(k)
}

/// Constructor descriptor of the subtype for leaf tag `k`: its parameters are
/// the payload of the variant, in order (`J` a 64-bit integer, the other a string).
pub open spec fn ctor_signature_of(k: SpanKind) -> Seq<char> {
    match k {
        SpanKind::Quote => "(J)V"@,
        SpanKind::DeadQuote => "(J)V"@,
        SpanKind::UrlLink => "(Ljava/lang/String;)V"@,
        SpanKind::BoardLink => "(Ljava/lang/String;)V"@,
        SpanKind::SearchLink => "(Ljava/lang/String;Ljava/lang/String;)V"@,
        SpanKind::ThreadLink => "(Ljava/lang/String;JJ)V"@,
        SpanKind::Spoiler => "()V"@,
        SpanKind::GreenText => "()V"@,
    }
}

impl SpanKind {
    /// The nested name of this tag's subtype.
    pub fn tag(self) -> (r: &'static str)
        ensures
            r@ == tag_of(self),
    {
        match self {
            SpanKind::Quote => "Quote",
            SpanKind::DeadQuote => "DeadQuote",
            SpanKind::UrlLink => "UrlLink",
            SpanKind::BoardLink => "BoardLink",
            SpanKind::SearchLink => "SearchLink",
            SpanKind::ThreadLink => "ThreadLink",
            SpanKind::Spoiler => "Spoiler",
            SpanKind::GreenText => "GreenText",
        }
    }

    /// The constructor descriptor of this tag's subtype.
    pub fn ctor_signature(self) -> (r: &'static str)
        ensures
            r@ == ctor_signature_of(self),
    {
        match self {
            SpanKind::Quote => "(J)V",
            SpanKind::DeadQuote => "(J)V",
            SpanKind::UrlLink => "(Ljava/lang/String;)V",
            SpanKind::BoardLink => "(Ljava/lang/String;)V",
            SpanKind::SearchLink => "(Ljava/lang/String;Ljava/lang/String;)V",
            SpanKind::ThreadLink => "(Ljava/lang/String;JJ)V",
            SpanKind::Spoiler => "()V",
            SpanKind::GreenText => "()V",
        }
    }
}

/// Name of the composite's field that holds the text `f`.
pub open spec fn text_field_name_of(f: TextField) -> Seq<char> {
    match f {
        TextField::Raw => "commentTextRaw"@,
        TextField::Parsed => "commentTextParsed"@,
    }
}

impl TextField {
    /// Name of the composite's field that holds this text.
    pub fn field_name(self) -> (r: &'static str)
        ensures
            r@ == text_field_name_of(self),
    {
        match self {
            TextField::Raw => "commentTextRaw",
            TextField::Parsed => "commentTextParsed",
        }
    }
}

/// Type descriptor of the composite's text fields.
pub fn string_signature() -> (r: &'static str)
    ensures
        r@ == "Ljava/lang/String;"@,
{
    "Ljava/lang/String;"
}

/// Name of the composite's field that holds the spannable array.
pub fn spannable_array_field_name() -> (r: &'static str)
    ensures
        r@ == "spannableList"@,
{
    "spannableList"
}

/// Fully qualified name of the composite comment type.
pub fn comment_class_name() -> (r: String)
    ensures
        r@ == comment_class_name_of(),
{
    let mut s = "com/github/k1rakishou/core_parser/comment/".to_owned();
    s.append("PostCommentParsed");
    s
}

/// Fully qualified name of the spannable interface.
pub fn element_class_name() -> (r: String)
    ensures
        r@ == element_class_name_of(),
{
    let mut s = "com/github/k1rakishou/core_parser/comment/span/".to_owned();
    s.append("IPostCommentSpannableData");
    s
}

/// Type descriptor of the composite's spannable array field.
pub fn spannable_array_signature() -> (r: String)
    ensures
        r@ == spannable_array_signature_of(),
{
    let mut s = "[L".to_owned();
    s.append("com/github/k1rakishou/core_parser/comment/span/");
    s.append("PostCommentSpannable;");
    s
}

/// Fully qualified name of the concrete subtype for leaf tag `kind`.
pub fn spannable_class_name(kind: SpanKind) -> (r: String)
    ensures
        r@ == spannable_class_name_of(kind),
{
    let mut s = element_class_name();
    s.append("$");
    s.append(kind.tag());
    s
}

} // verus!
