//! What a panel shows: its CSS class, its stylesheet and its label text.

use vstd::prelude::*;
use vstd::string::*;

use crate::config::{Edge, PanelConfig, PanelStyle};

verus! {

/// Whether `c` is an ASCII letter or digit.
pub open spec fn is_ascii_alphanumeric(c: char) -> bool {
    ('0' <= c && c <= '9') || ('a' <= c && c <= 'z') || ('A' <= c && c <= 'Z')
}

/// The lowercase hexadecimal digit for `v` (meaningful for `v < 16`).
pub open spec fn hex_digit(v: u32) -> char {
    if v == 0 {
        '0'
    } else if v == 1 {
        '1'
    } else if v == 2 {
        '2'
    } else if v == 3 {
        '3'
    } else if v == 4 {
        '4'
    } else if v == 5 {
        '5'
    } else if v == 6 {
        '6'
    } else if v == 7 {
        '7'
    } else if v == 8 {
        '8'
    } else if v == 9 {
        '9'
    } else if v == 10 {
        'a'
    } else if v == 11 {
        'b'
    } else if v == 12 {
        'c'
    } else if v == 13 {
        'd'
    } else if v == 14 {
        'e'
    } else if v == 15 {
        'f'
    } else {
        '0'
    }
}

/// A character's code point as six lowercase hexadecimal digits (every
/// code point is below `0x1000000`).
pub open spec fn hex6(n: u32) -> Seq<char> {
    seq![
        hex_digit((n >> 20u32) & 0xfu32),
        hex_digit((n >> 16u32) & 0xfu32),
        hex_digit((n >> 12u32) & 0xfu32),
        hex_digit((n >> 8u32) & 0xfu32),
        hex_digit((n >> 4u32) & 0xfu32),
        hex_digit(n & 0xfu32),
    ]
}

/// What stands for `c` in a CSS class name: an ASCII letter or digit stands
/// for itself, `-` is doubled, and any other character becomes `-` followed
/// by its code point in six hexadecimal digits.
pub open spec fn css_escape(c: char) -> Seq<char> {
    if is_ascii_alphanumeric(c) {
        seq![c]
    } else if c == '-' {
        seq!['-', '-']
    } else {
        seq!['-'] + hex6(c as u32)
    }
}

/// A tag with each character replaced by its [`css_escape`].
pub open spec fn css_escaped(tag: Seq<char>) -> Seq<char>
    decreases tag.len(),
{
    if tag.len() == 0 {
        Seq::empty()
    } else {
        css_escape(tag[0]) + css_escaped(tag.drop_first())
    }
}

/// The CSS class of the panel with this tag: `panel-` and then the tag
/// escaped character by character (see [`css_escape`]).
pub open spec fn spec_css_class(tag: Seq<char>) -> Seq<char> {
    "panel-"@ + css_escaped(tag)
}

/// Escaping a concatenation escapes each part.
pub proof fn lemma_escaped_append(a: Seq<char>, b: Seq<char>)
    ensures
        css_escaped(a + b) == css_escaped(a) + css_escaped(b),
    decreases a.len(),
{
    if a.len() == 0 {
        assert(a + b == b);
        assert(css_escaped(a) + css_escaped(b) == css_escaped(b));
    } else {
        assert((a + b)[0] == a[0]);
        assert((a + b).drop_first() == a.drop_first() + b);
        lemma_escaped_append(a.drop_first(), b);
    }
}

/// Escaping one character gives its [`css_escape`].
pub proof fn lemma_escaped_single(c: char)
    ensures
        css_escaped(seq![c]) == css_escape(c),
{
    assert(seq![c].drop_first() == Seq::<char>::empty());
    assert(css_escaped(Seq::<char>::empty()) == Seq::<char>::empty());
    assert(css_escape(c) + Seq::<char>::empty() == css_escape(c));
}

/// A character's code point fits in six hexadecimal digits, and names the
/// character.
pub proof fn lemma_code_point(c: char, d: char)
    ensures
        (c as u32) < 0x110000,
        (c as u32) == (d as u32) ==> c == d,
{
}

/// Six hexadecimal digits name one code point.
pub proof fn lemma_hex6_injective(n: u32, m: u32)
    requires
        n < 0x1000000,
        m < 0x1000000,
        hex6(n) == hex6(m),
    ensures
        n == m,
{
    assert(hex6(n)[0] == hex6(m)[0]);
    assert(hex6(n)[1] == hex6(m)[1]);
    assert(hex6(n)[2] == hex6(m)[2]);
    assert(hex6(n)[3] == hex6(m)[3]);
    assert(hex6(n)[4] == hex6(m)[4]);
    assert(hex6(n)[5] == hex6(m)[5]);
    assert(forall|x: u32| #[trigger] (x & 0xfu32) < 16) by (bit_vector);
    assert(n == m) by (bit_vector)
        requires
            n < 0x1000000,
            m < 0x1000000,
            (n >> 20u32) & 0xfu32 == (m >> 20u32) & 0xfu32,
            (n >> 16u32) & 0xfu32 == (m >> 16u32) & 0xfu32,
            (n >> 12u32) & 0xfu32 == (m >> 12u32) & 0xfu32,
            (n >> 8u32) & 0xfu32 == (m >> 8u32) & 0xfu32,
            (n >> 4u32) & 0xfu32 == (m >> 4u32) & 0xfu32,
            n & 0xfu32 == m & 0xfu32,
    ;
}

/// Hexadecimal digits are ASCII letters or digits.
pub proof fn lemma_hex6_alphanumeric(n: u32)
    ensures
        forall|i: int| 0 <= i < 6 ==> is_ascii_alphanumeric(#[trigger] hex6(n)[i]),
{
}

/// Escaped tags hold nothing but ASCII letters, digits and `-`.
pub proof fn lemma_escaped_charset(tag: Seq<char>)
    ensures
        forall|i: int|
            0 <= i < css_escaped(tag).len() ==> is_ascii_alphanumeric(#[trigger] css_escaped(tag)[i])
                || css_escaped(tag)[i] == '-',
    decreases tag.len(),
{
    if tag.len() > 0 {
        lemma_escaped_charset(tag.drop_first());
        lemma_hex6_alphanumeric(tag[0] as u32);
        let e = css_escape(tag[0]);
        let r = css_escaped(tag.drop_first());
        assert forall|i: int| 0 <= i < (e + r).len() implies is_ascii_alphanumeric(
            #[trigger] (e + r)[i],
        ) || (e + r)[i] == '-' by {
            if i >= e.len() {
                assert((e + r)[i] == r[i - e.len()]);
            } else if i >= 1 && !is_ascii_alphanumeric(tag[0]) && tag[0] != '-' {
                assert(e[i] == hex6(tag[0] as u32)[i - 1]);
            }
        }
    }
}

/// Different tags escape differently.
pub proof fn lemma_escaped_injective(a: Seq<char>, b: Seq<char>)
    requires
        css_escaped(a) == css_escaped(b),
    ensures
        a == b,
    decreases a.len(),
{
    if a.len() == 0 {
        if b.len() > 0 {
            assert(css_escaped(b).len() >= css_escape(b[0]).len());
        }
        assert(a =~= b);
    } else {
        if b.len() == 0 {
            assert(css_escaped(a).len() >= css_escape(a[0]).len());
        }
        let c = a[0];
        let d = b[0];
        let ea = css_escape(c);
        let eb = css_escape(d);
        let ra = css_escaped(a.drop_first());
        let rb = css_escaped(b.drop_first());
        let w = ea + ra;
        assert(w == eb + rb);
        lemma_hex6_alphanumeric(c as u32);
        lemma_hex6_alphanumeric(d as u32);
        assert(w[0] == ea[0]);
        assert(w[0] == eb[0]);
        if is_ascii_alphanumeric(c) || is_ascii_alphanumeric(d) {
            assert(c == d);
        } else if c == '-' || d == '-' {
            assert(w[1] == ea[1]);
            assert(w[1] == eb[1]);
            assert(c == d);
        } else {
            assert forall|i: int| 0 <= i < 6 implies #[trigger] hex6(c as u32)[i] == hex6(d as u32)[i] by {
                assert(w[i + 1] == ea[i + 1]);
                assert(w[i + 1] == eb[i + 1]);
            }
            assert(hex6(c as u32) =~= hex6(d as u32));
            lemma_code_point(c, d);
            lemma_code_point(d, c);
            lemma_hex6_injective(c as u32, d as u32);
            assert(c == d);
        }
        assert(ra =~= w.subrange(ea.len() as int, w.len() as int));
        assert(rb =~= w.subrange(eb.len() as int, w.len() as int));
        lemma_escaped_injective(a.drop_first(), b.drop_first());
        assert(a =~= seq![c] + a.drop_first());
        assert(b =~= seq![d] + b.drop_first());
    }
}

/// Appends one character to a string by std's `String::push`, trusted to
/// leave the string's characters followed by `c`.
#[verifier::external_body]
fn push_char(s: &mut String, c: char)
    ensures
        final(s)@ == old(s)@.push(c),
{
    s.push(c);
}

fn hex_digit_char(v: u32) -> (r: char)
    ensures
        r == hex_digit(v),
{
    if v == 0 {
        '0'
    } else if v == 1 {
        '1'
    } else if v == 2 {
        '2'
    } else if v == 3 {
        '3'
    } else if v == 4 {
        '4'
    } else if v == 5 {
        '5'
    } else if v == 6 {
        '6'
    } else if v == 7 {
        '7'
    } else if v == 8 {
        '8'
    } else if v == 9 {
        '9'
    } else if v == 10 {
        'a'
    } else if v == 11 {
        'b'
    } else if v == 12 {
        'c'
    } else if v == 13 {
        'd'
    } else if v == 14 {
        'e'
    } else if v == 15 {
        'f'
    } else {
        '0'
    }
}

/// Appends the escape of `c` (see [`css_escape`]).
fn push_escaped(out: &mut String, c: char)
    ensures
        final(out)@ == old(out)@ + css_escape(c),
{
    if ('0' <= c && c <= '9') || ('a' <= c && c <= 'z') || ('A' <= c && c <= 'Z') {
        push_char(out, c);
        assert(old(out)@.push(c) =~= old(out)@ + seq![c]);
    } else if c == '-' {
        push_char(out, '-');
        push_char(out, '-');
        assert(old(out)@.push('-').push('-') =~= old(out)@ + seq!['-', '-']);
    } else {
        let n = c as u32;
        push_char(out, '-');
        push_char(out, hex_digit_char((n >> 20u32) & 0xfu32));
        push_char(out, hex_digit_char((n >> 16u32) & 0xfu32));
        push_char(out, hex_digit_char((n >> 12u32) & 0xfu32));
        push_char(out, hex_digit_char((n >> 8u32) & 0xfu32));
        push_char(out, hex_digit_char((n >> 4u32) & 0xfu32));
        push_char(out, hex_digit_char(n & 0xfu32));
        assert(final(out)@ =~= old(out)@ + css_escape(c));
    }
}

/// Build a unique CSS class name from a panel tag.
///
/// Each panel registers its own CSS provider at display scope; scoping its
/// rules to `window.<class>` keeps one panel's background color from
/// applying to every other panel. The class is `panel-` (so it starts with
/// a letter) followed by the tag escaped into CSS-identifier-safe characters
/// (`[a-zA-Z0-9-]`): letters and digits stay, `-` is doubled, and any other
/// character becomes `-` and its code point in six hexadecimal digits.
/// Different tags get different classes.
pub fn css_class_for_tag(tag: &str) -> (r: String)
    ensures
        r@ == spec_css_class(tag@),
{
    let mut out = String::from_str("panel-");
    let n = tag.unicode_len();
    for i in 0..n
        invariant
            n == tag@.len(),
            out@ == "panel-"@ + css_escaped(tag@.subrange(0, i as int)),
    {
        let c = tag.get_char(i);
        push_escaped(&mut out, c);
        proof {
            assert(tag@.subrange(0, i + 1) == tag@.subrange(0, i as int) + seq![c]);
            lemma_escaped_append(tag@.subrange(0, i as int), seq![c]);
            lemma_escaped_single(c);
        }
    }
    assert(tag@.subrange(0, n as int) == tag@);
    out
}

/// The name `{:?}` prints for an edge.
pub open spec fn edge_name(edge: Edge) -> Seq<char> {
    match edge {
        Edge::Left => "Left"@,
        Edge::Right => "Right"@,
        Edge::Top => "Top"@,
        Edge::Bottom => "Bottom"@,
    }
}

/// The text a panel's label shows: the configured label, or else
/// `"<Edge> panel [<tag>]"` for a drawer and the bare tag for a bar.
pub open spec fn spec_panel_label(config: PanelConfig) -> Seq<char> {
    match config.label {
        Some(l) => l@,
        None => if config.style == PanelStyle::Drawer {
            edge_name(config.edge) + " panel ["@ + config.tag@ + "]"@
        } else {
            config.tag@
        },
    }
}

/// The text shown in a panel's label (see [`spec_panel_label`]).
pub fn panel_label(config: &PanelConfig) -> (r: String)
    ensures
        r@ == spec_panel_label(*config),
{
    match &config.label {
        Some(l) => l.clone(),
        None => match config.style {
            PanelStyle::Drawer => {
                let mut s = match config.edge {
                    Edge::Left => String::from_str("Left"),
                    Edge::Right => String::from_str("Right"),
                    Edge::Top => String::from_str("Top"),
                    Edge::Bottom => String::from_str("Bottom"),
                };
                s.append(" panel [");
                s.append(config.tag.as_str());
                s.append("]");
                s
            },
            PanelStyle::Bar => config.tag.clone(),
        },
    }
}

/// The stylesheet of a drawer with CSS class `cls` and background `bg`.
pub open spec fn spec_drawer_css(cls: Seq<char>, bg: Seq<char>) -> Seq<char> {
    "window."@ + cls + " { background-color: "@ + bg + "; } "@
        + "window."@ + cls + " .panel-label { font-size: 18px; font-weight: bold; color: white; } "@
        + "window."@ + cls + " .panel-info { font-size: 14px; color: rgba(255,255,255,0.7); }"@
}

/// The stylesheet of a bar with CSS class `cls` and background `bg`.
pub open spec fn spec_bar_css(cls: Seq<char>, bg: Seq<char>) -> Seq<char> {
    "window."@ + cls + " { background-color: "@ + bg + "; } "@
        + "window."@ + cls + " .bar-label { font-size: 14px; font-weight: bold; color: white; } "@
        + "window."@ + cls + " .bar-pct { font-size: 14px; font-weight: bold; color: white; font-family: monospace; } "@
        + "window."@ + cls + " progressbar trough { min-height: 14px; background-color: rgba(0,0,0,0.3); border-radius: 7px; } "@
        + "window."@ + cls + " progressbar progress { min-height: 14px; background-color: rgba(255,255,255,0.9); border-radius: 7px; }"@
}

/// The stylesheet a panel registers: every rule is scoped to
/// `window.<class>`, with the class from [`css_class_for_tag`].
pub open spec fn spec_panel_css(config: PanelConfig) -> Seq<char> {
    if config.style == PanelStyle::Drawer {
        spec_drawer_css(spec_css_class(config.tag@), config.bg_color@)
    } else {
        spec_bar_css(spec_css_class(config.tag@), config.bg_color@)
    }
}

/// The panel's stylesheet (see [`spec_panel_css`]).
pub fn panel_css(config: &PanelConfig) -> (r: String)
    ensures
        r@ == spec_panel_css(*config),
{
    let cls = css_class_for_tag(config.tag.as_str());
    let c = cls.as_str();
    let mut s = String::from_str("window.");
    s.append(c);
    s.append(" { background-color: ");
    s.append(config.bg_color.as_str());
    s.append("; } ");
    match config.style {
        PanelStyle::Drawer => {
            s.append("window.");
            s.append(c);
            s.append(" .panel-label { font-size: 18px; font-weight: bold; color: white; } ");
            s.append("window.");
            s.append(c);
            s.append(" .panel-info { font-size: 14px; color: rgba(255,255,255,0.7); }");
        },
        PanelStyle::Bar => {
            s.append("window.");
            s.append(c);
            s.append(" .bar-label { font-size: 14px; font-weight: bold; color: white; } ");
            s.append("window.");
            s.append(c);
            s.append(
                " .bar-pct { font-size: 14px; font-weight: bold; color: white; font-family: monospace; } ",
            );
            s.append("window.");
            s.append(c);
            s.append(
                " progressbar trough { min-height: 14px; background-color: rgba(0,0,0,0.3); border-radius: 7px; } ",
            );
            s.append("window.");
            s.append(c);
            s.append(
                " progressbar progress { min-height: 14px; background-color: rgba(255,255,255,0.9); border-radius: 7px; }",
            );
        },
    }
    s
}

} // verus!
