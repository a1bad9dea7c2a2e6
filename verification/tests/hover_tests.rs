use kak_lsp::hover::{covers, diagnostics_text, editor_hover, fused_display, hover_text};
use kak_lsp::types::{
    Diagnostic, Hover, HoverContents, HoverPrecedence, KakounePosition, KakouneRange,
    LanguageString, LspPosition, LspRange, MarkedString,
};

fn diag(sl: u64, sc: u64, el: u64, ec: u64, message: &str) -> Diagnostic {
    Diagnostic {
        range: LspRange {
            start: LspPosition { line: sl, character: sc },
            end: LspPosition { line: el, character: ec },
        },
        severity: None,
        message: message.to_string(),
    }
}

#[test]
fn coverage_single_point_is_reflexive() {
    let p = LspPosition { line: 3, character: 7 };
    let r = LspRange { start: p, end: p };
    assert!(covers(&r, &p));
}

#[test]
fn coverage_boundaries_are_inclusive() {
    let r = LspRange {
        start: LspPosition { line: 1, character: 2 },
        end: LspPosition { line: 4, character: 5 },
    };
    assert!(covers(&r, &LspPosition { line: 1, character: 2 }));
    assert!(covers(&r, &LspPosition { line: 4, character: 5 }));
    assert!(covers(&r, &LspPosition { line: 1, character: 9 }));
    assert!(covers(&r, &LspPosition { line: 4, character: 0 }));
    assert!(covers(&r, &LspPosition { line: 2, character: 0 }));
    assert!(!covers(&r, &LspPosition { line: 1, character: 1 }));
    assert!(!covers(&r, &LspPosition { line: 4, character: 6 }));
    assert!(!covers(&r, &LspPosition { line: 0, character: 9 }));
    assert!(!covers(&r, &LspPosition { line: 5, character: 0 }));
}

#[test]
fn diagnostics_are_trimmed_bulleted_joined() {
    let pos = LspPosition { line: 1, character: 3 };
    let ds = vec![
        diag(1, 0, 1, 5, "  first  "),
        diag(1, 0, 1, 5, "   "),
        diag(9, 0, 9, 5, "elsewhere"),
        diag(0, 0, 2, 0, "second"),
    ];
    assert_eq!(diagnostics_text(&ds, &pos), "• first\n• second");
}

#[test]
fn hover_scalar_passes_through_unchanged() {
    let h = Hover { contents: HoverContents::Scalar(MarkedString::Plain("  x  ".to_string())) };
    assert_eq!(hover_text(Some(h)), "  x  ");
    assert_eq!(hover_text(None), "");
}

#[test]
fn hover_array_is_trimmed_bulleted_joined() {
    let h = Hover {
        contents: HoverContents::Array(vec![
            MarkedString::Plain(" one ".to_string()),
            MarkedString::Plain("   ".to_string()),
            MarkedString::Language(LanguageString {
                language: "rust".to_string(),
                value: "two".to_string(),
            }),
        ]),
    };
    assert_eq!(hover_text(Some(h)), "• one\n• two");
}

#[test]
fn hover_markup_is_used_as_is() {
    let h = Hover { contents: HoverContents::Markup(" **raw** ".to_string()) };
    assert_eq!(hover_text(Some(h)), " **raw** ");
}

#[test]
fn fusion_matches_the_table() {
    let e = String::new();
    let h = "h".to_string();
    let d = "d".to_string();
    let policies = [
        HoverPrecedence::DiagnosticsOnly,
        HoverPrecedence::InfoOnly,
        HoverPrecedence::DiagnosticsFirst,
        HoverPrecedence::InfoFirst,
    ];
    for p in policies {
        // Both empty: suppressed, no display at all.
        assert_eq!(fused_display(p, &e, &e), None);
        // Only diagnostics.
        assert_eq!(fused_display(p, &e, &d), Some("d".to_string()));
        // Only hover.
        assert_eq!(fused_display(p, &h, &e), Some("h".to_string()));
    }
    // Both present: the policy decides.
    assert_eq!(
        fused_display(HoverPrecedence::DiagnosticsOnly, &h, &d),
        Some("d".to_string())
    );
    assert_eq!(
        fused_display(HoverPrecedence::InfoOnly, &h, &d),
        Some("h".to_string())
    );
    assert_eq!(
        fused_display(HoverPrecedence::DiagnosticsFirst, &h, &d),
        Some("d\n\nh".to_string())
    );
    assert_eq!(
        fused_display(HoverPrecedence::InfoFirst, &h, &d),
        Some("h\n\nd".to_string())
    );
}

#[test]
fn hover_with_diagnostics_info_first() {
    // Diagnostics [(1,0)-(1,5), "bad"], hover "type: int", position (1,3),
    // precedence InfoFirst: displayed text is "type: int\n\n• bad".
    let ds = vec![diag(1, 0, 1, 5, "bad")];
    let pos = LspPosition { line: 1, character: 3 };
    let hover = Hover { contents: HoverContents::Scalar(MarkedString::Plain("type: int".to_string())) };
    let d = diagnostics_text(&ds, &pos);
    let h = hover_text(Some(hover.clone()));
    assert_eq!(
        fused_display(HoverPrecedence::InfoFirst, &h, &d),
        Some("type: int\n\n• bad".to_string())
    );
    let cmd = editor_hover(
        &KakounePosition { line: 2, column: 4 },
        HoverPrecedence::InfoFirst,
        &pos,
        &ds,
        Some(hover),
    );
    assert_eq!(
        cmd,
        Some("lsp-show-hover 2.4 'type: int\n\n• bad'".to_string())
    );
}

#[test]
fn hover_suppressed_when_both_empty() {
    let ds: Vec<Diagnostic> = vec![];
    let pos = LspPosition { line: 0, character: 0 };
    let cmd = editor_hover(
        &KakounePosition { line: 1, column: 1 },
        HoverPrecedence::InfoFirst,
        &pos,
        &ds,
        None,
    );
    assert_eq!(cmd, None);
}

#[test]
fn position_and_range_display() {
    let p = KakounePosition { line: 12, column: 340 };
    assert_eq!(p.display(), "12.340");
    let r = KakouneRange { start: KakounePosition { line: 1, column: 1 }, end: p };
    assert_eq!(r.display(), "1.1,12.340");
}

#[test]
fn marked_string_plaintext() {
    assert_eq!(MarkedString::Plain("p".to_string()).plaintext(), "p");
    let l = MarkedString::Language(LanguageString {
        language: "c".to_string(),
        value: "int x;".to_string(),
    });
    assert_eq!(l.plaintext(), "int x;");
}
