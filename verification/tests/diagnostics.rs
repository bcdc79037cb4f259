use rspack_error::diagnostic_kind::DiagnosticKind;
use rspack_error::error::Error;
use rspack_error::traceable::TraceableError;

fn message_of(e: &Error) -> String {
    match e {
        Error::InternalError(message) => message.clone(),
        _ => panic!("expected an internal error leaf"),
    }
}

#[test]
fn kind_rendering_is_total_stable_and_distinct() {
    let cases = [
        (DiagnosticKind::JavaScript, "javascript"),
        (DiagnosticKind::Typescript, "typescript"),
        (DiagnosticKind::Jsx, "jsx"),
        (DiagnosticKind::Tsx, "tsx"),
        (DiagnosticKind::Scss, "scss"),
        (DiagnosticKind::Css, "css"),
        (DiagnosticKind::Internal, "internal"),
        (DiagnosticKind::Io, "io"),
        (DiagnosticKind::Json, "json"),
        (DiagnosticKind::Html, "html"),
    ];
    for (kind, expected) in cases.iter() {
        let rendered = kind.render();
        assert_eq!(rendered, *expected);
        assert!(!rendered.is_empty());
        assert!(rendered.chars().all(|c| c.is_ascii_lowercase()));
    }
    for (i, (_, a)) in cases.iter().enumerate() {
        for (j, (_, b)) in cases.iter().enumerate() {
            if i != j {
                assert_ne!(a, b);
            }
        }
    }
}

#[test]
fn kind_default_is_internal() {
    assert_eq!(DiagnosticKind::default(), DiagnosticKind::Internal);
}

#[test]
fn builder_creates_with_absent_source_and_internal_kind() {
    let t = TraceableError::from_path(
        String::from("lib/mod.rs"),
        3,
        9,
        String::from("Type Error"),
        String::from("mismatched types"),
    );
    assert_eq!(t.path, "lib/mod.rs");
    assert_eq!(t.start, 3);
    assert_eq!(t.end, 9);
    assert_eq!(t.title, "Type Error");
    assert_eq!(t.error_message, "mismatched types");
    assert!(t.source.is_none());
    assert_eq!(t.kind, DiagnosticKind::Internal);
}

#[test]
fn builder_attachments_change_only_their_field() {
    let t = TraceableError::from_path(
        String::from("a.css"),
        0,
        4,
        String::from("Parse Error"),
        String::from("bad selector"),
    );
    let t = t.with_source(String::from(".x {"));
    assert_eq!(t.path, "a.css");
    assert_eq!(t.start, 0);
    assert_eq!(t.end, 4);
    assert_eq!(t.title, "Parse Error");
    assert_eq!(t.error_message, "bad selector");
    assert_eq!(t.source.as_deref(), Some(".x {"));
    assert_eq!(t.kind, DiagnosticKind::Internal);
    let t = t.with_kind(DiagnosticKind::Css);
    assert_eq!(t.kind, DiagnosticKind::Css);
    assert_eq!(t.source.as_deref(), Some(".x {"));
    assert_eq!(t.path, "a.css");
}

#[test]
fn builder_attachments_commute() {
    let make = || {
        TraceableError::from_path(
            String::from("x.scss"),
            1,
            2,
            String::from("T"),
            String::from("M"),
        )
    };
    let a = make().with_source(String::from("$v: 1;")).with_kind(DiagnosticKind::Scss);
    let b = make().with_kind(DiagnosticKind::Scss).with_source(String::from("$v: 1;"));
    assert_eq!(a.path, b.path);
    assert_eq!(a.start, b.start);
    assert_eq!(a.end, b.end);
    assert_eq!(a.title, b.title);
    assert_eq!(a.error_message, b.error_message);
    assert_eq!(a.source, b.source);
    assert_eq!(a.kind, b.kind);
}

#[test]
fn io_wrap_preserves_the_underlying_failure() {
    let f = std::io::Error::new(std::io::ErrorKind::NotFound, "missing file");
    let e = Error::from(f);
    match &e {
        Error::Io { source } => {
            assert_eq!(source.to_string(), "missing file");
            assert_eq!(source.kind(), std::io::ErrorKind::NotFound);
        }
        _ => panic!("expected the Io variant"),
    }
    assert_eq!(e.kind(), DiagnosticKind::Io);
}

#[test]
fn anyhow_wrap_preserves_the_underlying_failure() {
    let g = anyhow::Error::msg("opaque failure");
    let e = Error::from(g);
    match &e {
        Error::Anyhow { source } => {
            assert_eq!(source.to_string(), "opaque failure");
        }
        _ => panic!("expected the Anyhow variant"),
    }
    assert_eq!(e.kind(), DiagnosticKind::Internal);
}

#[test]
fn batch_preserves_order_when_flattened() {
    let errors = vec![
        Error::InternalError(String::from("one")),
        Error::InternalError(String::from("two")),
        Error::InternalError(String::from("three")),
    ];
    let batch = Error::aggregate(errors);
    let flat = batch.flatten();
    let messages: Vec<String> = flat.iter().map(message_of).collect();
    assert_eq!(messages, vec!["one", "two", "three"]);
}

#[test]
fn nested_batches_flatten_depth_first_left_to_right() {
    let inner = Error::aggregate(vec![
        Error::InternalError(String::from("b")),
        Error::InternalError(String::from("c")),
    ]);
    let outer = Error::aggregate(vec![
        Error::InternalError(String::from("a")),
        inner,
        Error::InternalError(String::from("d")),
    ]);
    let flat = outer.flatten();
    let messages: Vec<String> = flat.iter().map(message_of).collect();
    assert_eq!(messages, vec!["a", "b", "c", "d"]);
}

#[test]
fn empty_batch_is_a_failure_value_not_success() {
    let batch = Error::aggregate(Vec::new());
    match &batch {
        Error::BatchErrors(inner) => assert!(inner.is_empty()),
        _ => panic!("expected the BatchErrors variant"),
    }
    assert!(batch.flatten().is_empty());
}

#[test]
fn classification_is_defined_for_every_variant() {
    let internal = Error::InternalError(String::from("oops"));
    assert_eq!(internal.kind(), DiagnosticKind::Internal);

    let traced = Error::TraceableError(
        TraceableError::from_path(
            String::from("s.scss"),
            0,
            1,
            String::from("T"),
            String::from("M"),
        )
        .with_kind(DiagnosticKind::Scss),
    );
    assert_eq!(traced.kind(), DiagnosticKind::Scss);

    let io = Error::from(std::io::Error::new(std::io::ErrorKind::Other, "disk"));
    assert_eq!(io.kind(), DiagnosticKind::Io);

    let opaque = Error::from(anyhow::Error::msg("boom"));
    assert_eq!(opaque.kind(), DiagnosticKind::Internal);

    let batch = Error::aggregate(vec![io, opaque]);
    assert_eq!(batch.kind(), DiagnosticKind::Internal);
}

#[test]
fn internal_error_renders_its_message_verbatim() {
    let e = Error::InternalError(String::from("exact message"));
    assert_eq!(e.render(), "exact message");
}

#[test]
fn non_internal_variants_render_as_empty_strings() {
    let io = Error::from(std::io::Error::new(std::io::ErrorKind::Other, "disk"));
    assert_eq!(io.render(), "");
    let opaque = Error::from(anyhow::Error::msg("boom"));
    assert_eq!(opaque.render(), "");
    let batch = Error::aggregate(Vec::new());
    assert_eq!(batch.render(), "");
}

#[test]
fn traceable_scenario_typed_script_syntax_error() {
    let t = TraceableError::from_path(
        String::from("src/app.ts"),
        10,
        14,
        String::from("Syntax Error"),
        String::from("unexpected token"),
    )
    .with_kind(DiagnosticKind::Typescript);
    let e = Error::TraceableError(t);
    match &e {
        Error::TraceableError(t) => {
            assert_eq!(t.path, "src/app.ts");
            assert_eq!(t.start, 10);
            assert_eq!(t.end, 14);
            assert!(t.source.is_none());
            assert_eq!(t.kind, DiagnosticKind::Typescript);
        }
        _ => panic!("expected the TraceableError variant"),
    }
    assert_eq!(e.render(), "");
}
