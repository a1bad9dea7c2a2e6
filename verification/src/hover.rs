//! Diagnostic–hover fusion: which stored diagnostics cover the queried
//! position, how hover contents reduce to plain text, and which of the two
//! texts a precedence policy displays.
use vstd::prelude::*;
use crate::text::{position_text, trim, trim_of};
use crate::quoting::{editor_quote, editor_quote_spec};
use crate::types::{
    Diagnostic, Hover, HoverContents, HoverPrecedence, KakounePosition, LanguageString,
    LspPosition, LspRange, MarkedString,
};

verus! {

/// Lexicographic order on protocol positions.
pub open spec fn lsp_pos_leq(a: LspPosition, b: LspPosition) -> bool {
    a.line < b.line || (a.line == b.line && a.character <= b.character)
}

/// Whether a diagnostic range covers a position: `start <= p <= end` under
/// lexicographic order. This one inequality subsumes the four boundary cases
/// a case split on lines would enumerate.
pub open spec fn range_covers(r: LspRange, p: LspPosition) -> bool {
    lsp_pos_leq(r.start, p) && lsp_pos_leq(p, r.end)
}

/// Law: coverage is reflexive on single-point ranges; and an ordered range
/// includes its own `start` and `end` positions — boundaries are inclusive.
pub proof fn lemma_coverage_boundaries(r: LspRange, p: LspPosition)
    ensures
        range_covers(LspRange { start: p, end: p }, p),
        range_covers(r, r.start) <==> lsp_pos_leq(r.start, r.end),
        range_covers(r, r.end) <==> lsp_pos_leq(r.start, r.end),
{
}

/// Decides coverage of a position by a diagnostic range.
pub fn covers(r: &LspRange, p: &LspPosition) -> (b: bool)
    ensures
        b == range_covers(*r, *p),
{
    (r.start.line < p.line || (r.start.line == p.line && r.start.character <= p.character)) && (
    p.line < r.end.line || (p.line == r.end.line && p.character <= r.end.character))
}

/// One displayed item: the trimmed text behind a bullet marker.
pub open spec fn bulleted(t: Seq<char>) -> Seq<char> {
    "• "@ + t
}

/// The diagnostics text over the first `n` stored diagnostics: those that
/// cover the position, trimmed, empty ones dropped, bulleted, joined with
/// newlines.
pub open spec fn diagnostics_text_upto(ds: Seq<Diagnostic>, pos: LspPosition, n: int) -> Seq<char>
    decreases n,
{
    if n <= 0 {
        Seq::empty()
    } else {
        let prev = diagnostics_text_upto(ds, pos, n - 1);
        let t = trim_of(ds[n - 1].message@);
        if range_covers(ds[n - 1].range, pos) && t.len() > 0 {
            if prev.len() == 0 {
                bulleted(t)
            } else {
                prev + "\n"@ + bulleted(t)
            }
        } else {
            prev
        }
    }
}

/// The diagnostics text for a position (may be empty).
pub open spec fn diagnostics_text_spec(ds: Seq<Diagnostic>, pos: LspPosition) -> Seq<char> {
    diagnostics_text_upto(ds, pos, ds.len() as int)
}

/// Builds the diagnostics text for the queried position from the current
/// snapshot of the file's diagnostics.
pub fn diagnostics_text(ds: &Vec<Diagnostic>, pos: &LspPosition) -> (r: String)
    ensures
        r@ == diagnostics_text_spec(ds@, *pos),
{
    let mut out = String::new();
    let mut i: usize = 0;
    while i < ds.len()
        invariant
            i <= ds@.len(),
            out@ == diagnostics_text_upto(ds@, *pos, i as int),
        decreases ds@.len() - i,
    {
        let d = &ds[i];
        if covers(&d.range, pos) {
            let t = trim(d.message.as_str());
            if !t.is_empty() {
                if !out.as_str().is_empty() {
                    out.append("\n");
                }
                out.append("• ");
                out.append(t);
            }
        }
        i = i + 1;
    }
    out
}

/// The plain text of one hover fragment: its raw text, whichever variant.
pub open spec fn marked_plaintext(m: MarkedString) -> Seq<char> {
    match m {
        MarkedString::Plain(s) => s@,
        MarkedString::Language(l) => l.value@,
    }
}

impl MarkedString {
    /// The plain text of this fragment.
    pub fn plaintext(self) -> (r: String)
        ensures
            r@ == marked_plaintext(self),
    {
        match self {
            MarkedString::Plain(s) => s,
            MarkedString::Language(l) => l.value,
        }
    }
}

/// The text of the first `n` fragments of a hover list: trimmed, empty ones
/// dropped, bulleted, joined with newlines — as for diagnostics.
pub open spec fn marked_list_text_upto(items: Seq<MarkedString>, n: int) -> Seq<char>
    decreases n,
{
    if n <= 0 {
        Seq::empty()
    } else {
        let prev = marked_list_text_upto(items, n - 1);
        let t = trim_of(marked_plaintext(items[n - 1]));
        if t.len() > 0 {
            if prev.len() == 0 {
                bulleted(t)
            } else {
                prev + "\n"@ + bulleted(t)
            }
        } else {
            prev
        }
    }
}

/// The plain hover text (may be empty): a single fragment passes through
/// unchanged, a list is trimmed and bulleted, markup's raw text is used
/// as-is.
pub open spec fn hover_text_spec(result: Option<Hover>) -> Seq<char> {
    match result {
        None => Seq::empty(),
        Some(h) => match h.contents {
            HoverContents::Scalar(m) => marked_plaintext(m),
            HoverContents::Array(items) => marked_list_text_upto(items@, items@.len() as int),
            HoverContents::Markup(v) => v@,
        },
    }
}

/// Reduces a hover result to its plain text.
pub fn hover_text(result: Option<Hover>) -> (r: String)
    ensures
        r@ == hover_text_spec(result),
{
    match result {
        None => String::new(),
        Some(h) => match h.contents {
            HoverContents::Scalar(m) => m.plaintext(),
            HoverContents::Array(items) => {
                let mut out = String::new();
                let mut i: usize = 0;
                while i < items.len()
                    invariant
                        i <= items@.len(),
                        out@ == marked_list_text_upto(items@, i as int),
                    decreases items@.len() - i,
                {
                    let raw: &str = match &items[i] {
                        MarkedString::Plain(s) => s.as_str(),
                        MarkedString::Language(l) => l.value.as_str(),
                    };
                    let t = trim(raw);
                    if !t.is_empty() {
                        if !out.as_str().is_empty() {
                            out.append("\n");
                        }
                        out.append("• ");
                        out.append(t);
                    }
                    i = i + 1;
                }
                out
            },
            HoverContents::Markup(v) => v,
        },
    }
}

/// The fused text a precedence policy displays, or nothing when both texts
/// are empty. When exactly one text is present it is displayed whatever the
/// policy; when both are, the policy picks one or joins the two with a blank
/// line.
pub open spec fn fusion_spec(p: HoverPrecedence, hover: Seq<char>, diag: Seq<char>) -> Option<
    Seq<char>,
> {
    if hover.len() == 0 && diag.len() == 0 {
        None
    } else if hover.len() == 0 {
        Some(diag)
    } else if diag.len() == 0 {
        Some(hover)
    } else {
        match p {
            HoverPrecedence::DiagnosticsOnly => Some(diag),
            HoverPrecedence::InfoOnly => Some(hover),
            HoverPrecedence::DiagnosticsFirst => Some(diag + "\n\n"@ + hover),
            HoverPrecedence::InfoFirst => Some(hover + "\n\n"@ + diag),
        }
    }
}

/// Selects the displayed text per the precedence policy; `None` means no
/// display command is issued at all.
pub fn fused_display(p: HoverPrecedence, hover: &String, diag: &String) -> (r: Option<String>)
    ensures
        match r {
            Some(t) => fusion_spec(p, hover@, diag@) == Some(t@),
            None => fusion_spec(p, hover@, diag@) is None,
        },
{
    let hover_empty = hover.as_str().is_empty();
    let diag_empty = diag.as_str().is_empty();
    if hover_empty && diag_empty {
        None
    } else if hover_empty {
        Some(diag.clone())
    } else if diag_empty {
        Some(hover.clone())
    } else {
        match p {
            HoverPrecedence::DiagnosticsOnly => Some(diag.clone()),
            HoverPrecedence::InfoOnly => Some(hover.clone()),
            HoverPrecedence::DiagnosticsFirst => {
                let mut out = diag.clone();
                out.append("\n\n");
                out.append(hover.as_str());
                Some(out)
            },
            HoverPrecedence::InfoFirst => {
                let mut out = hover.clone();
                out.append("\n\n");
                out.append(diag.as_str());
                Some(out)
            },
        }
    }
}

/// The display command: `lsp-show-hover <line>.<column> <quoted-text>`.
pub open spec fn show_hover_command(p: KakounePosition, text: Seq<char>) -> Seq<char> {
    "lsp-show-hover "@ + position_text(p) + " "@ + editor_quote_spec(text)
}

/// Fuses the current diagnostics snapshot with a hover result for the
/// queried position and builds the display command; `None` when both texts
/// are empty — no command is issued then.
pub fn editor_hover(
    pos: &KakounePosition,
    precedence: HoverPrecedence,
    lsp_pos: &LspPosition,
    diagnostics: &Vec<Diagnostic>,
    result: Option<Hover>,
) -> (r: Option<String>)
    ensures
        match r {
            Some(cmd) => fusion_spec(
                precedence,
                hover_text_spec(result),
                diagnostics_text_spec(diagnostics@, *lsp_pos),
            ) matches Some(t) && cmd@ == show_hover_command(*pos, t),
            None => fusion_spec(
                precedence,
                hover_text_spec(result),
                diagnostics_text_spec(diagnostics@, *lsp_pos),
            ) is None,
        },
{
    let diag = diagnostics_text(diagnostics, lsp_pos);
    let hover = hover_text(result);
    match fused_display(precedence, &hover, &diag) {
        None => None,
        Some(t) => {
            let mut cmd = String::new();
            cmd.append("lsp-show-hover ");
            let p = pos.display();
            cmd.append(p.as_str());
            cmd.append(" ");
            let q = editor_quote(t.as_str());
            cmd.append(q.as_str());
            Some(cmd)
        },
    }
}

} // verus!
