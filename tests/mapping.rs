use kuroba_ex_native::{
    comment_class_name, comment_object, element_class_name, spannable_array_signature,
    spannable_class_name, spannable_object, spannables_objects, ErrorKind, HostEvent, HostStep,
    HostValue, MappingError, MappingSession, Next, PostCommentParsed, PostLink, SpanKind,
    Spannable, SpannableData, TextField,
};

fn link(l: PostLink) -> Spannable {
    Spannable { spannable_data: SpannableData::Link(l) }
}

fn comment(raw: &str, parsed: &str, spannables: Vec<Spannable>) -> PostCommentParsed {
    PostCommentParsed {
        original_comment_text: raw.to_string(),
        parsed_comment_text: parsed.to_string(),
        spannables,
    }
}

fn text(s: &str) -> HostValue {
    HostValue::Text(s.to_string())
}

fn every_variant() -> Vec<Spannable> {
    vec![
        link(PostLink::Quote { post_no: 1 }),
        link(PostLink::Dead { post_no: 2 }),
        link(PostLink::UrlLink { link: "https://example.com".to_string() }),
        link(PostLink::BoardLink { board_code: "g".to_string() }),
        link(PostLink::SearchLink { board_code: "a".to_string(), search_query: "q".to_string() }),
        link(PostLink::ThreadLink { board_code: "v".to_string(), thread_no: 3, post_no: 4 }),
        Spannable { spannable_data: SpannableData::Spoiler },
        Spannable { spannable_data: SpannableData::GreenText },
    ]
}

/// Drives a session, reporting `outcome(step)` for each operation, and
/// returns the operations asked for and how it ended.
fn drive(
    session: &mut MappingSession,
    outcome: impl Fn(HostStep) -> HostEvent,
) -> (Vec<HostStep>, Next) {
    let mut steps = Vec::new();
    loop {
        match session.next() {
            Next::Perform(step) => {
                steps.push(step);
                session.record(outcome(step));
            }
            end => return (steps, end),
        }
    }
}

#[test]
fn scenario_quote_spoiler_thread_link() {
    let c = comment(
        "hello",
        "hello",
        vec![
            link(PostLink::Quote { post_no: 42 }),
            Spannable { spannable_data: SpannableData::Spoiler },
            link(PostLink::ThreadLink { board_code: "g".to_string(), thread_no: 100, post_no: 101 }),
        ],
    );
    let r = comment_object(&c);
    assert_eq!(r.comment_text_raw, "hello");
    assert_eq!(r.comment_text_parsed, "hello");
    assert_eq!(r.spannables.len(), 3);
    assert_eq!(r.spannables[0].kind, SpanKind::Quote);
    assert_eq!(r.spannables[0].args, vec![HostValue::Long(42)]);
    assert_eq!(r.spannables[1].kind, SpanKind::Spoiler);
    assert!(r.spannables[1].args.is_empty());
    assert_eq!(r.spannables[2].kind, SpanKind::ThreadLink);
    assert_eq!(
        r.spannables[2].args,
        vec![text("g"), HostValue::Long(100), HostValue::Long(101)]
    );
}

#[test]
fn empty_comment_has_empty_array() {
    let c = comment("raw >>1", "parsed 1", vec![]);
    let r = comment_object(&c);
    assert_eq!(r.comment_text_raw, "raw >>1");
    assert_eq!(r.comment_text_parsed, "parsed 1");
    assert!(r.spannables.is_empty());

    let mut session = MappingSession::new(&c);
    let (steps, end) = drive(&mut session, |_| HostEvent::Succeeded);
    assert_eq!(
        steps,
        vec![
            HostStep::NewComment,
            HostStep::SetText(TextField::Raw),
            HostStep::SetText(TextField::Parsed),
            HostStep::NewArray(0),
            HostStep::AttachArray,
        ]
    );
    assert_eq!(end, Next::Finish);
}

#[test]
fn output_length_equals_input_length() {
    for n in [0usize, 1, 7, 64] {
        let spannables: Vec<Spannable> =
            (0..n).map(|i| link(PostLink::Quote { post_no: i as u64 })).collect();
        let r = spannables_objects(&spannables);
        assert_eq!(r.len(), n);
        for (i, o) in r.iter().enumerate() {
            assert_eq!(o.args, vec![HostValue::Long(i as i64)]);
        }
    }
}

#[test]
fn each_variant_gets_its_own_subtype() {
    let objects = spannables_objects(&every_variant());
    let kinds: Vec<SpanKind> = objects.iter().map(|o| o.kind).collect();
    assert_eq!(
        kinds,
        vec![
            SpanKind::Quote,
            SpanKind::DeadQuote,
            SpanKind::UrlLink,
            SpanKind::BoardLink,
            SpanKind::SearchLink,
            SpanKind::ThreadLink,
            SpanKind::Spoiler,
            SpanKind::GreenText,
        ]
    );
    let names: Vec<String> = kinds.iter().map(|k| spannable_class_name(*k)).collect();
    for i in 0..names.len() {
        for j in 0..names.len() {
            assert_eq!(i == j, names[i] == names[j]);
        }
    }
}

#[test]
fn class_names_and_descriptors() {
    assert_eq!(comment_class_name(), "com/github/k1rakishou/core_parser/comment/PostCommentParsed");
    assert_eq!(
        element_class_name(),
        "com/github/k1rakishou/core_parser/comment/span/IPostCommentSpannableData"
    );
    assert_eq!(
        spannable_array_signature(),
        "[Lcom/github/k1rakishou/core_parser/comment/span/PostCommentSpannable;"
    );
    assert_eq!(
        spannable_class_name(SpanKind::DeadQuote),
        "com/github/k1rakishou/core_parser/comment/span/IPostCommentSpannableData$DeadQuote"
    );
    assert_eq!(SpanKind::Quote.ctor_signature(), "(J)V");
    assert_eq!(SpanKind::DeadQuote.ctor_signature(), "(J)V");
    assert_eq!(SpanKind::UrlLink.ctor_signature(), "(Ljava/lang/String;)V");
    assert_eq!(SpanKind::BoardLink.ctor_signature(), "(Ljava/lang/String;)V");
    assert_eq!(SpanKind::SearchLink.ctor_signature(), "(Ljava/lang/String;Ljava/lang/String;)V");
    assert_eq!(SpanKind::ThreadLink.ctor_signature(), "(Ljava/lang/String;JJ)V");
    assert_eq!(SpanKind::Spoiler.ctor_signature(), "()V");
    assert_eq!(SpanKind::GreenText.ctor_signature(), "()V");
    assert_eq!(SpanKind::SearchLink.tag(), "SearchLink");
}

#[test]
fn strings_are_copied_exactly() {
    let url = link(PostLink::UrlLink { link: "https://example.com/ä?q=1&r=ünï".to_string() });
    assert_eq!(spannable_object(&url).args, vec![text("https://example.com/ä?q=1&r=ünï")]);
    let board = link(PostLink::BoardLink { board_code: "vg".to_string() });
    assert_eq!(spannable_object(&board).args, vec![text("vg")]);
    let search = link(PostLink::SearchLink {
        board_code: "jp".to_string(),
        search_query: "日本 語".to_string(),
    });
    assert_eq!(spannable_object(&search).args, vec![text("jp"), text("日本 語")]);
    let c = comment("a  \n b", "", vec![url]);
    let r = comment_object(&c);
    assert_eq!(r.comment_text_raw, "a  \n b");
    assert_eq!(r.comment_text_parsed, "");
}

#[test]
fn numbers_keep_their_bits() {
    for n in [0u64, 42, i64::MAX as u64, 1u64 << 63, u64::MAX] {
        let q = spannable_object(&link(PostLink::Quote { post_no: n }));
        assert_eq!(q.args, vec![HostValue::Long(n as i64)]);
        let d = spannable_object(&link(PostLink::Dead { post_no: n }));
        assert_eq!(d.args, vec![HostValue::Long(n as i64)]);
        match &q.args[0] {
            HostValue::Long(v) => assert_eq!(*v as u64, n),
            HostValue::Text(_) => panic!("expected a number"),
        }
    }
    let q = spannable_object(&link(PostLink::Quote { post_no: u64::MAX }));
    assert_eq!(q.args, vec![HostValue::Long(-1)]);
    let t = spannable_object(&link(PostLink::ThreadLink {
        board_code: "b".to_string(),
        thread_no: 1u64 << 63,
        post_no: 7,
    }));
    assert_eq!(t.args, vec![text("b"), HostValue::Long(i64::MIN), HostValue::Long(7)]);
}

#[test]
fn full_run_builds_every_slot_in_order() {
    let c = comment("x", "y", every_variant());
    let mut session = MappingSession::new(&c);
    assert_eq!(session.object().spannables.len(), 8);
    let (steps, end) = drive(&mut session, |_| HostEvent::Succeeded);
    let mut expected = vec![
        HostStep::NewComment,
        HostStep::SetText(TextField::Raw),
        HostStep::SetText(TextField::Parsed),
        HostStep::NewArray(8),
    ];
    for i in 0..8 {
        expected.push(HostStep::BuildElement(i));
    }
    expected.push(HostStep::AttachArray);
    assert_eq!(steps, expected);
    assert_eq!(end, Next::Finish);
    session.record(HostEvent::Failed(ErrorKind::Instantiation));
    assert_eq!(session.next(), Next::Finish);
}

#[test]
fn missing_subtype_aborts_the_whole_mapping() {
    let c = comment("x", "y", every_variant());
    let mut session = MappingSession::new(&c);
    let (steps, end) = drive(&mut session, |step| match step {
        HostStep::BuildElement(5) => HostEvent::Failed(ErrorKind::TypeResolution),
        _ => HostEvent::Succeeded,
    });
    assert_eq!(steps.last(), Some(&HostStep::BuildElement(5)));
    assert!(!steps.contains(&HostStep::BuildElement(6)));
    assert!(!steps.contains(&HostStep::AttachArray));
    let error = MappingError { kind: ErrorKind::TypeResolution, step: HostStep::BuildElement(5) };
    assert_eq!(end, Next::Abort(error));
    session.record(HostEvent::Succeeded);
    assert_eq!(session.next(), Next::Abort(error));
}

#[test]
fn every_error_kind_is_reported_with_its_step() {
    let cases = [
        (HostStep::NewComment, ErrorKind::TypeResolution),
        (HostStep::NewComment, ErrorKind::Instantiation),
        (HostStep::SetText(TextField::Raw), ErrorKind::StringAllocation),
        (HostStep::SetText(TextField::Parsed), ErrorKind::FieldAssignment),
        (HostStep::NewArray(1), ErrorKind::TypeResolution),
        (HostStep::BuildElement(0), ErrorKind::StringAllocation),
        (HostStep::BuildElement(0), ErrorKind::Instantiation),
        (HostStep::AttachArray, ErrorKind::FieldAssignment),
    ];
    for (failing, kind) in cases {
        let c = comment("x", "y", vec![link(PostLink::UrlLink { link: "u".to_string() })]);
        let mut session = MappingSession::new(&c);
        let (steps, end) = drive(&mut session, |step| {
            if step == failing { HostEvent::Failed(kind) } else { HostEvent::Succeeded }
        });
        assert_eq!(steps.last(), Some(&failing));
        assert_eq!(end, Next::Abort(MappingError { kind, step: failing }));
    }
}
