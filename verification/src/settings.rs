//! User settings and their on-disk JSON document.
//!
//! The settings record is the single source of truth for dictation
//! configuration. It is persisted as one JSON object; the codec here is
//! specified exactly: the writer produces the canonical document, and the
//! loader accepts any object with the four fields in any order (unknown
//! members are ignored, missing members take their documented defaults) and
//! falls back to the defaults entirely when the text is not such an object,
//! since settings are non-critical convenience state. The host layer only
//! moves the bytes to and from the file.

use crate::text::push_char;
use crate::transcript::is_space;
use vstd::prelude::*;
use vstd::string::{StrSliceExecFns, StringExecFns};

verus! {

/// The accelerator used when none is stored.
pub const DEFAULT_SHORTCUT: &'static str = "Alt+Space";

/// The language used when none is stored: automatic detection.
pub const DEFAULT_LANGUAGE: &'static str = "auto";

/// The persisted dictation configuration.
pub struct WhisperSettings {
    /// The id of the active recognition model, when one was chosen.
    pub active_model: Option<String>,
    /// The recognition language; `"auto"` selects automatic detection.
    pub language: String,
    /// The global shortcut accelerator string.
    pub shortcut: String,
    /// The chosen input device's name; the system default when absent.
    pub selected_device: Option<String>,
}

/// The mathematical value of a settings record.
pub struct SettingsView {
    /// View of the active model id.
    pub active_model: Option<Seq<char>>,
    /// View of the language.
    pub language: Seq<char>,
    /// View of the shortcut.
    pub shortcut: Seq<char>,
    /// View of the selected device name.
    pub selected_device: Option<Seq<char>>,
}

impl View for WhisperSettings {
    type V = SettingsView;

    open spec fn view(&self) -> SettingsView {
        SettingsView {
            active_model: match self.active_model {
                Option::Some(s) => Option::Some(s@),
                Option::None => Option::None,
            },
            language: self.language@,
            shortcut: self.shortcut@,
            selected_device: match self.selected_device {
                Option::Some(s) => Option::Some(s@),
                Option::None => Option::None,
            },
        }
    }
}

/// The documented default settings.
pub open spec fn default_settings_view() -> SettingsView {
    SettingsView {
        active_model: Option::None,
        language: "auto"@,
        shortcut: "Alt+Space"@,
        selected_device: Option::None,
    }
}

impl core::default::Default for WhisperSettings {
    /// The documented defaults: no model, automatic language, the fixed
    /// default shortcut, the system default device.
    fn default() -> (r: WhisperSettings)
        ensures
            r@ == default_settings_view(),
    {
        WhisperSettings {
            active_model: None,
            language: String::from_str("auto"),
            shortcut: String::from_str("Alt+Space"),
            selected_device: None,
        }
    }
}

// ------------------------------------------------------------------
// The document grammar, writer side.
// ------------------------------------------------------------------
/// The escape of one character inside a JSON string: quotes and
/// backslashes get a backslash, everything else stands for itself.
pub open spec fn esc_char(c: char) -> Seq<char> {
    if c == '"' || c == '\\' {
        seq!['\\', c]
    } else {
        seq![c]
    }
}

/// The escaped body of a JSON string.
pub open spec fn esc(s: Seq<char>) -> Seq<char>
    decreases s.len(),
{
    if s.len() == 0 {
        Seq::empty()
    } else {
        esc_char(s.first()) + esc(s.drop_first())
    }
}

/// A JSON string token: the escaped body between quotes.
pub open spec fn quoted(s: Seq<char>) -> Seq<char> {
    seq!['"'] + esc(s) + seq!['"']
}

/// An optional string value: a string token, or the `null` keyword.
pub open spec fn json_opt_string(o: Option<Seq<char>>) -> Seq<char> {
    match o {
        Option::Some(s) => quoted(s),
        Option::None => "null"@,
    }
}

/// The canonical settings document: one compact object with the four
/// fields in a fixed order.
pub open spec fn settings_json(v: SettingsView) -> Seq<char> {
    seq!['{'] + quoted("active_model"@) + seq![':'] + json_opt_string(v.active_model) + seq![',']
        + quoted("language"@) + seq![':'] + quoted(v.language) + seq![','] + quoted("shortcut"@)
        + seq![':'] + quoted(v.shortcut) + seq![','] + quoted("selected_device"@) + seq![':']
        + json_opt_string(v.selected_device) + seq!['}']
}

/// Escaping a longer text appends the escape of the added character.
proof fn lemma_esc_push(s: Seq<char>, c: char)
    ensures
        esc(s.push(c)) == esc(s) + esc_char(c),
    decreases s.len(),
{
    if s.len() == 0 {
        assert(s.push(c).drop_first() =~= Seq::<char>::empty());
        assert(s.push(c).first() == c);
        assert(esc(Seq::<char>::empty()) =~= Seq::<char>::empty());
        assert(esc(s.push(c)) =~= esc_char(c));
        assert(esc(s) + esc_char(c) =~= esc_char(c));
    } else {
        assert(s.push(c).drop_first() =~= s.drop_first().push(c));
        assert(s.push(c).first() == s.first());
        lemma_esc_push(s.drop_first(), c);
        assert(esc_char(s.first()) + (esc(s.drop_first()) + esc_char(c)) =~= (esc_char(s.first())
            + esc(s.drop_first())) + esc_char(c));
    }
}

/// Appends the escaped body of `v`.
fn write_escaped(out: &mut String, v: &str)
    ensures
        final(out)@ == old(out)@ + esc(v@),
{
    let n = v.unicode_len();
    let mut i: usize = 0;
    while i < n
        invariant
            n == v@.len(),
            i <= n,
            out@ == old(out)@ + esc(v@.take(i as int)),
        decreases n - i,
    {
        let c = v.get_char(i);
        if c == '"' || c == '\\' {
            push_char(out, '\\');
            push_char(out, c);
        } else {
            push_char(out, c);
        }
        proof {
            lemma_esc_push(v@.take(i as int), c);
            assert(v@.take(i as int).push(c) =~= v@.take(i + 1));
            assert((old(out)@ + esc(v@.take(i as int))) + esc_char(c) =~= old(out)@ + (esc(
                v@.take(i as int),
            ) + esc_char(c)));
        }
        i = i + 1;
    }
    proof {
        assert(v@.take(n as int) =~= v@);
    }
}

/// Appends a JSON string token holding `v`.
fn write_quoted(out: &mut String, v: &str)
    ensures
        final(out)@ == old(out)@ + quoted(v@),
{
    push_char(out, '"');
    write_escaped(out, v);
    push_char(out, '"');
    proof {
        assert(((old(out)@ + seq!['"']) + esc(v@)).push('"') =~= old(out)@ + quoted(v@));
    }
}

/// Appends an optional string value.
fn write_opt_string(out: &mut String, v: &Option<String>)
    ensures
        final(out)@ == old(out)@ + json_opt_string(
            match v {
                Option::Some(s) => Option::Some(s@),
                Option::None => Option::None,
            },
        ),
{
    match v {
        Some(s) => write_quoted(out, s.as_str()),
        None => out.append("null"),
    }
}

// ------------------------------------------------------------------
// The document grammar, reader side.
// ------------------------------------------------------------------
/// One member value the loader understands: a string, or `null`.
pub enum JsonVal {
    /// A string token.
    Str(Seq<char>),
    /// The `null` keyword.
    Null,
}

/// The fields collected while reading the object; a later duplicate member
/// overwrites an earlier one.
pub struct SettingsDoc {
    /// The `active_model` member, when seen.
    pub active_model: Option<JsonVal>,
    /// The `language` member, when seen.
    pub language: Option<JsonVal>,
    /// The `shortcut` member, when seen.
    pub shortcut: Option<JsonVal>,
    /// The `selected_device` member, when seen.
    pub selected_device: Option<JsonVal>,
}

/// A document with no members seen yet.
pub open spec fn empty_doc() -> SettingsDoc {
    SettingsDoc {
        active_model: Option::None,
        language: Option::None,
        shortcut: Option::None,
        selected_device: Option::None,
    }
}

/// Drops leading whitespace.
pub open spec fn skip_ws(t: Seq<char>) -> Seq<char>
    decreases t.len(),
{
    if t.len() > 0 && is_space(t[0]) {
        skip_ws(t.skip(1))
    } else {
        t
    }
}

/// Reads a string body after its opening quote: the unescaped content and
/// the remainder after the closing quote. Only the two escapes the writer
/// emits are understood.
pub open spec fn parse_string_body(t: Seq<char>) -> Option<(Seq<char>, Seq<char>)>
    decreases t.len(),
{
    if t.len() == 0 {
        Option::None
    } else if t[0] == '"' {
        Option::Some((Seq::empty(), t.skip(1)))
    } else if t[0] == '\\' {
        if t.len() >= 2 && (t[1] == '"' || t[1] == '\\') {
            match parse_string_body(t.skip(2)) {
                Option::Some(p) => Option::Some((seq![t[1]] + p.0, p.1)),
                Option::None => Option::None,
            }
        } else {
            Option::None
        }
    } else {
        match parse_string_body(t.skip(1)) {
            Option::Some(p) => Option::Some((seq![t[0]] + p.0, p.1)),
            Option::None => Option::None,
        }
    }
}

/// Reads a whole string token.
pub open spec fn parse_string_tok(t: Seq<char>) -> Option<(Seq<char>, Seq<char>)> {
    if t.len() > 0 && t[0] == '"' {
        parse_string_body(t.skip(1))
    } else {
        Option::None
    }
}

/// Reads one member value: a string token or `null`.
pub open spec fn parse_value(t: Seq<char>) -> Option<(JsonVal, Seq<char>)> {
    if t.len() > 0 && t[0] == '"' {
        match parse_string_tok(t) {
            Option::Some(p) => Option::Some((JsonVal::Str(p.0), p.1)),
            Option::None => Option::None,
        }
    } else if t.len() >= 4 && t.subrange(0, 4) == "null"@ {
        Option::Some((JsonVal::Null, t.skip(4)))
    } else {
        Option::None
    }
}

/// Records a member under its key; an unknown key is ignored.
pub open spec fn doc_with(doc: SettingsDoc, key: Seq<char>, v: JsonVal) -> SettingsDoc {
    if key == "active_model"@ {
        SettingsDoc { active_model: Option::Some(v), ..doc }
    } else if key == "language"@ {
        SettingsDoc { language: Option::Some(v), ..doc }
    } else if key == "shortcut"@ {
        SettingsDoc { shortcut: Option::Some(v), ..doc }
    } else if key == "selected_device"@ {
        SettingsDoc { selected_device: Option::Some(v), ..doc }
    } else {
        doc
    }
}

/// Reads the members of a non-empty object, starting just inside the
/// brace, up to and including the closing brace. Each step consumes at
/// least one character, so a fuel of the remaining length plus one never
/// runs out first.
pub open spec fn parse_members(t: Seq<char>, doc: SettingsDoc, fuel: nat) -> Option<
    (SettingsDoc, Seq<char>),
>
    decreases fuel,
{
    if fuel == 0 {
        Option::None
    } else {
        let t0 = skip_ws(t);
        match parse_string_tok(t0) {
            Option::None => Option::None,
            Option::Some(kp) => {
                let t1 = skip_ws(kp.1);
                if t1.len() > 0 && t1[0] == ':' {
                    let t2 = skip_ws(t1.skip(1));
                    match parse_value(t2) {
                        Option::None => Option::None,
                        Option::Some(vp) => {
                            let doc2 = doc_with(doc, kp.0, vp.0);
                            let t3 = skip_ws(vp.1);
                            if t3.len() > 0 && t3[0] == ',' {
                                parse_members(t3.skip(1), doc2, (fuel - 1) as nat)
                            } else if t3.len() > 0 && t3[0] == '}' {
                                Option::Some((doc2, t3.skip(1)))
                            } else {
                                Option::None
                            }
                        },
                    }
                } else {
                    Option::None
                }
            },
        }
    }
}

/// Reads a whole settings document: one object, nothing but whitespace
/// after it.
pub open spec fn parse_doc(t: Seq<char>) -> Option<SettingsDoc> {
    let t0 = skip_ws(t);
    if t0.len() > 0 && t0[0] == '{' {
        let t1 = skip_ws(t0.skip(1));
        if t1.len() > 0 && t1[0] == '}' {
            if skip_ws(t1.skip(1)).len() == 0 {
                Option::Some(empty_doc())
            } else {
                Option::None
            }
        } else {
            match parse_members(t1, empty_doc(), (t1.len() + 1) as nat) {
                Option::Some(p) => {
                    if skip_ws(p.1).len() == 0 {
                        Option::Some(p.0)
                    } else {
                        Option::None
                    }
                },
                Option::None => Option::None,
            }
        }
    } else {
        Option::None
    }
}

/// An optional-string field: absent and `null` both mean no selection.
pub open spec fn field_opt_string(f: Option<JsonVal>) -> Option<Seq<char>> {
    match f {
        Option::None => Option::None,
        Option::Some(JsonVal::Null) => Option::None,
        Option::Some(JsonVal::Str(s)) => Option::Some(s),
    }
}

/// A required-string field: absent means the default; `null` is a type
/// error that corrupts the document.
pub open spec fn field_string(f: Option<JsonVal>, default: Seq<char>) -> Option<Seq<char>> {
    match f {
        Option::None => Option::Some(default),
        Option::Some(JsonVal::Str(s)) => Option::Some(s),
        Option::Some(JsonVal::Null) => Option::None,
    }
}

/// Turns collected members into a settings value; a wrongly typed member
/// makes the whole document invalid, so the loader falls back to the
/// defaults rather than guessing.
pub open spec fn doc_to_settings(doc: SettingsDoc) -> Option<SettingsView> {
    let lang = field_string(doc.language, "auto"@);
    let sc = field_string(doc.shortcut, "Alt+Space"@);
    if lang is Some && sc is Some {
        Option::Some(
            SettingsView {
                active_model: field_opt_string(doc.active_model),
                language: lang.unwrap(),
                shortcut: sc.unwrap(),
                selected_device: field_opt_string(doc.selected_device),
            },
        )
    } else {
        Option::None
    }
}

/// What loading a settings text yields: the parsed value, or the
/// documented defaults when the text is not a settings object.
pub open spec fn parse_settings(t: Seq<char>) -> SettingsView {
    match parse_doc(t) {
        Option::Some(doc) => match doc_to_settings(doc) {
            Option::Some(v) => v,
            Option::None => default_settings_view(),
        },
        Option::None => default_settings_view(),
    }
}

/// Renders the canonical settings document.
pub fn settings_to_json(s: &WhisperSettings) -> (r: String)
    ensures
        r@ == settings_json(s@),
{
    let mut out = String::new();
    push_char(&mut out, '{');
    write_quoted(&mut out, "active_model");
    push_char(&mut out, ':');
    write_opt_string(&mut out, &s.active_model);
    push_char(&mut out, ',');
    write_quoted(&mut out, "language");
    push_char(&mut out, ':');
    write_quoted(&mut out, s.language.as_str());
    push_char(&mut out, ',');
    write_quoted(&mut out, "shortcut");
    push_char(&mut out, ':');
    write_quoted(&mut out, s.shortcut.as_str());
    push_char(&mut out, ',');
    write_quoted(&mut out, "selected_device");
    push_char(&mut out, ':');
    write_opt_string(&mut out, &s.selected_device);
    push_char(&mut out, '}');
    proof {
        assert(out@ =~= settings_json(s@));
    }
    out
}

// ------------------------------------------------------------------
// The round trip: reading back a rendered document.
// ------------------------------------------------------------------
/// The reader inverts the escape: a string body written by the escape
/// function, closed by a quote, parses back to the original text.
proof fn lemma_parse_body_esc(x: Seq<char>, rest: Seq<char>)
    ensures
        parse_string_body(esc(x) + seq!['"'] + rest) == Option::Some((x, rest)),
    decreases x.len(),
{
    let t = esc(x) + seq!['"'] + rest;
    if x.len() == 0 {
        assert(esc(x) =~= Seq::<char>::empty());
        assert(t[0] == '"');
        assert(t.skip(1) =~= rest);
        assert(x =~= Seq::<char>::empty());
    } else {
        let c = x.first();
        let x2 = x.drop_first();
        assert(esc(x) == esc_char(c) + esc(x2));
        lemma_parse_body_esc(x2, rest);
        if c == '"' || c == '\\' {
            assert(t[0] == '\\');
            assert(t[1] == c);
            assert(t.skip(2) =~= esc(x2) + seq!['"'] + rest);
            assert(seq![c] + x2 =~= x);
        } else {
            assert(t[0] == c);
            assert(t.skip(1) =~= esc(x2) + seq!['"'] + rest);
            assert(seq![c] + x2 =~= x);
        }
    }
}

/// A written string token parses back to its text.
proof fn lemma_parse_tok_quoted(x: Seq<char>, rest: Seq<char>)
    ensures
        parse_string_tok(quoted(x) + rest) == Option::Some((x, rest)),
{
    let t = quoted(x) + rest;
    assert(t[0] == '"');
    assert(t.skip(1) =~= esc(x) + seq!['"'] + rest);
    lemma_parse_body_esc(x, rest);
}

/// A written optional-string value parses back to itself.
proof fn lemma_parse_value_opt(o: Option<Seq<char>>, rest: Seq<char>)
    ensures
        parse_value(json_opt_string(o) + rest) == Option::Some(
            (
                match o {
                    Option::Some(s) => JsonVal::Str(s),
                    Option::None => JsonVal::Null,
                },
                rest,
            ),
        ),
{
    let t = json_opt_string(o) + rest;
    match o {
        Option::Some(s) => {
            assert(t[0] == '"');
            assert(t =~= quoted(s) + rest);
            lemma_parse_tok_quoted(s, rest);
        },
        Option::None => {
            reveal_strlit("null");
            assert(t[0] == 'n');
            assert(t.subrange(0, 4) =~= "null"@);
            assert(t.skip(4) =~= rest);
        },
    }
}

/// A written string value parses back to itself.
proof fn lemma_parse_value_quoted(s: Seq<char>, rest: Seq<char>)
    ensures
        parse_value(quoted(s) + rest) == Option::Some((JsonVal::Str(s), rest)),
{
    let t = quoted(s) + rest;
    assert(t[0] == '"');
    lemma_parse_tok_quoted(s, rest);
}

/// One member of a written document is consumed exactly: its key is
/// recorded and reading continues after the separator.
proof fn lemma_member_step(
    t: Seq<char>,
    key: Seq<char>,
    vj: Seq<char>,
    v: JsonVal,
    after: Seq<char>,
    doc: SettingsDoc,
    fuel: nat,
)
    requires
        t == quoted(key) + seq![':'] + vj + after,
        parse_value(vj + after) == Option::Some((v, after)),
        after.len() > 0,
        after[0] == ',' || after[0] == '}',
        fuel >= 1,
    ensures
        after[0] == ',' ==> parse_members(t, doc, fuel) == parse_members(
            after.skip(1),
            doc_with(doc, key, v),
            (fuel - 1) as nat,
        ),
        after[0] == '}' ==> parse_members(t, doc, fuel) == Option::Some(
            (doc_with(doc, key, v), after.skip(1)),
        ),
{
    let rest1 = seq![':'] + vj + after;
    assert(t =~= quoted(key) + rest1);
    assert(t[0] == '"');
    assert(!is_space(t[0]));
    assert(skip_ws(t) == t);
    lemma_parse_tok_quoted(key, rest1);
    assert(rest1[0] == ':');
    assert(skip_ws(rest1) == rest1);
    assert(rest1.skip(1) =~= vj + after);
    let tv = vj + after;
    if tv.len() > 0 && tv[0] == '"' {
        assert(skip_ws(tv) == tv);
    } else {
        assert(tv.len() >= 4 && tv.subrange(0, 4) == "null"@);
        reveal_strlit("null");
        assert(tv[0] == "null"@[0]);
        assert(skip_ws(tv) == tv);
    }
    assert(!is_space(after[0]));
    assert(skip_ws(after) == after);
}

/// The writer's document parses back to the value it was written from:
/// saving settings and loading them again yields the same settings, for
/// every settings value.
#[verifier::rlimit(100)]
pub proof fn lemma_settings_round_trip(v: SettingsView)
    ensures
        parse_settings(settings_json(v)) == v,
{
    let k1 = "active_model"@;
    let k2 = "language"@;
    let k3 = "shortcut"@;
    let k4 = "selected_device"@;
    let v1 = json_opt_string(v.active_model);
    let v2 = quoted(v.language);
    let v3 = quoted(v.shortcut);
    let v4 = json_opt_string(v.selected_device);
    let after4 = seq!['}'];
    let m4 = quoted(k4) + seq![':'] + v4 + after4;
    let after3 = seq![','] + m4;
    let m3 = quoted(k3) + seq![':'] + v3 + after3;
    let after2 = seq![','] + m3;
    let m2 = quoted(k2) + seq![':'] + v2 + after2;
    let after1 = seq![','] + m2;
    let m1 = quoted(k1) + seq![':'] + v1 + after1;
    let t = settings_json(v);

    assert(t[0] == '{');
    assert(!is_space(t[0]));
    assert(skip_ws(t) == t);
    assert(t.skip(1) =~= m1);
    assert(m1[0] == '"');
    assert(skip_ws(m1) == m1);

    let fuel1 = (m1.len() + 1) as nat;
    let jv1: JsonVal = match v.active_model {
        Option::Some(s) => JsonVal::Str(s),
        Option::None => JsonVal::Null,
    };
    let jv4: JsonVal = match v.selected_device {
        Option::Some(s) => JsonVal::Str(s),
        Option::None => JsonVal::Null,
    };
    let d0 = empty_doc();
    let d1 = doc_with(d0, k1, jv1);
    let d2 = doc_with(d1, k2, JsonVal::Str(v.language));
    let d3 = doc_with(d2, k3, JsonVal::Str(v.shortcut));
    let d4 = doc_with(d3, k4, jv4);

    reveal_strlit("active_model");
    reveal_strlit("language");
    reveal_strlit("shortcut");
    reveal_strlit("selected_device");
    assert(k1.len() == 12 && k2.len() == 8 && k3.len() == 8 && k4.len() == 15);
    assert(k2 != k1);
    assert(k3[0] == 's' && k2[0] == 'l');
    assert(k3 != k1 && k3 != k2);
    assert(k4 != k1 && k4 != k2 && k4 != k3);

    assert(d1 == SettingsDoc { active_model: Option::Some(jv1), ..d0 });
    assert(d2 == SettingsDoc { language: Option::Some(JsonVal::Str(v.language)), ..d1 });
    assert(d3 == SettingsDoc { shortcut: Option::Some(JsonVal::Str(v.shortcut)), ..d2 });
    assert(d4 == SettingsDoc { selected_device: Option::Some(jv4), ..d3 });

    lemma_parse_value_opt(v.active_model, after1);
    assert(v1 + after1 =~= json_opt_string(v.active_model) + after1);
    lemma_member_step(m1, k1, v1, jv1, after1, d0, fuel1);
    assert(after1.skip(1) =~= m2);

    lemma_parse_value_quoted(v.language, after2);
    assert(v2 + after2 =~= quoted(v.language) + after2);
    lemma_member_step(m2, k2, v2, JsonVal::Str(v.language), after2, d1, (fuel1 - 1) as nat);
    assert(after2.skip(1) =~= m3);

    lemma_parse_value_quoted(v.shortcut, after3);
    lemma_member_step(m3, k3, v3, JsonVal::Str(v.shortcut), after3, d2, (fuel1 - 2) as nat);
    assert(after3.skip(1) =~= m4);

    lemma_parse_value_opt(v.selected_device, after4);
    assert(v4 + after4 =~= json_opt_string(v.selected_device) + after4);
    lemma_member_step(m4, k4, v4, jv4, after4, d3, (fuel1 - 3) as nat);
    assert(after4.skip(1) =~= Seq::<char>::empty());

    assert(m1.len() >= 4 + m2.len());
    assert(m2.len() >= 4 + m3.len());
    assert(m3.len() >= 4 + m4.len());
    assert(m4.len() >= 4);
    assert(fuel1 >= 4);

    assert(parse_members(m1, d0, fuel1) == Option::Some((d4, Seq::<char>::empty())));
    assert(skip_ws(Seq::<char>::empty()).len() == 0);
    assert(parse_doc(t) == Option::Some(d4));

    assert(doc_to_settings(d4) == Option::Some(v));
}

/// The spec value of an executable member value, where `None` stands for
/// the `null` keyword.
pub open spec fn val_view(v: Option<String>) -> JsonVal {
    match v {
        Option::Some(s) => JsonVal::Str(s@),
        Option::None => JsonVal::Null,
    }
}

/// The fields collected by the executable reader.
struct DocAcc {
    active_model: Option<Option<String>>,
    language: Option<Option<String>>,
    shortcut: Option<Option<String>>,
    selected_device: Option<Option<String>>,
}

/// The spec document an accumulator stands for.
spec fn acc_view(a: DocAcc) -> SettingsDoc {
    SettingsDoc {
        active_model: match a.active_model {
            Option::Some(v) => Option::Some(val_view(v)),
            Option::None => Option::None,
        },
        language: match a.language {
            Option::Some(v) => Option::Some(val_view(v)),
            Option::None => Option::None,
        },
        shortcut: match a.shortcut {
            Option::Some(v) => Option::Some(val_view(v)),
            Option::None => Option::None,
        },
        selected_device: match a.selected_device {
            Option::Some(v) => Option::Some(val_view(v)),
            Option::None => Option::None,
        },
    }
}

/// Advances past leading whitespace.
fn skip_ws_exec(s: &str, i: usize) -> (j: usize)
    requires
        i <= s@.len(),
    ensures
        i <= j <= s@.len(),
        skip_ws(s@.skip(i as int)) == s@.skip(j as int),
        j < s@.len() ==> !is_space(s@[j as int]),
{
    let n = s.unicode_len();
    let mut j = i;
    while j < n && crate::transcript::is_space_exec(s.get_char(j))
        invariant
            i <= j <= n,
            n == s@.len(),
            skip_ws(s@.skip(i as int)) == skip_ws(s@.skip(j as int)),
        decreases n - j,
    {
        proof {
            assert(s@.skip(j as int).skip(1) =~= s@.skip(j + 1));
        }
        j = j + 1;
    }
    proof {
        assert(skip_ws(s@.skip(j as int)) == s@.skip(j as int));
    }
    j
}

/// Reads a string token starting at `i`.
fn parse_string_exec(s: &str, i: usize) -> (r: Option<(String, usize)>)
    requires
        i <= s@.len(),
    ensures
        r is None ==> parse_string_tok(s@.skip(i as int)) is None,
        r matches Some((out, j)) ==> i < j <= s@.len() && parse_string_tok(s@.skip(i as int))
            == Some((out@, s@.skip(j as int))),
{
    let n = s.unicode_len();
    if i >= n || s.get_char(i) != '"' {
        proof {
            if i < n {
                assert(s@.skip(i as int)[0] == s@[i as int]);
            }
        }
        return None;
    }
    proof {
        assert(s@.skip(i as int)[0] == s@[i as int]);
        assert(s@.skip(i as int).skip(1) =~= s@.skip(i + 1));
    }
    let mut out = String::new();
    let mut cur: usize = i + 1;
    loop
        invariant
            i + 1 <= cur <= n,
            n == s@.len(),
            s@[i as int] == '"',
            (match parse_string_body(s@.skip(cur as int)) {
                Option::Some(p) => parse_string_body(s@.skip(i + 1)) == Option::Some(
                    (out@ + p.0, p.1),
                ),
                Option::None => parse_string_body(s@.skip(i + 1)) is None,
            }),
        decreases n - cur,
    {
        if cur >= n {
            proof {
                assert(s@.skip(i as int)[0] == s@[i as int]);
                assert(s@.skip(i as int).skip(1) =~= s@.skip(i + 1));
            }
            return None;
        }
        let c = s.get_char(cur);
        proof {
            assert(s@.skip(cur as int)[0] == s@[cur as int]);
        }
        if c == '"' {
            proof {
                assert(s@.skip(cur as int).skip(1) =~= s@.skip(cur + 1));
                assert(out@ + Seq::<char>::empty() =~= out@);
                assert(s@.skip(i as int)[0] == s@[i as int]);
                assert(s@.skip(i as int).skip(1) =~= s@.skip(i + 1));
            }
            return Some((out, cur + 1));
        } else if c == '\\' {
            if cur + 1 >= n {
                proof {
                    assert(s@.skip(cur as int).len() < 2);
                    assert(s@.skip(i as int)[0] == s@[i as int]);
                    assert(s@.skip(i as int).skip(1) =~= s@.skip(i + 1));
                }
                return None;
            }
            let c2 = s.get_char(cur + 1);
            proof {
                assert(s@.skip(cur as int)[1] == s@[cur as int + 1]);
            }
            if c2 == '"' || c2 == '\\' {
                proof {
                    assert(s@.skip(cur as int).skip(2) =~= s@.skip(cur + 2));
                }
                let ghost out_prev = out@;
                push_char(&mut out, c2);
                proof {
                    let t = s@.skip(cur as int);
                    match parse_string_body(s@.skip(cur + 2)) {
                        Option::Some(p) => {
                            assert(parse_string_body(t) == Option::Some(
                                (seq![c2] + p.0, p.1),
                            ));
                            assert(out_prev + (seq![c2] + p.0) =~= out_prev.push(c2) + p.0);
                        },
                        Option::None => {
                            assert(parse_string_body(t) is None);
                        },
                    }
                }
                cur = cur + 2;
            } else {
                proof {
                    assert(s@.skip(i as int)[0] == s@[i as int]);
                    assert(s@.skip(i as int).skip(1) =~= s@.skip(i + 1));
                }
                return None;
            }
        } else {
            proof {
                assert(s@.skip(cur as int).skip(1) =~= s@.skip(cur + 1));
            }
            let ghost out_prev = out@;
            push_char(&mut out, c);
            proof {
                let t = s@.skip(cur as int);
                match parse_string_body(s@.skip(cur + 1)) {
                    Option::Some(p) => {
                        assert(parse_string_body(t) == Option::Some((seq![c] + p.0, p.1)));
                        assert(out_prev + (seq![c] + p.0) =~= out_prev.push(c) + p.0);
                    },
                    Option::None => {
                        assert(parse_string_body(t) is None);
                    },
                }
            }
            cur = cur + 1;
        }
    }
}

/// Reads one member value starting at `i`.
fn parse_value_exec(s: &str, i: usize) -> (r: Option<(Option<String>, usize)>)
    requires
        i <= s@.len(),
    ensures
        r is None ==> parse_value(s@.skip(i as int)) is None,
        r matches Some((v, j)) ==> i < j <= s@.len() && parse_value(s@.skip(i as int)) == Some(
            (val_view(v), s@.skip(j as int)),
        ),
{
    let n = s.unicode_len();
    if i < n && s.get_char(i) == '"' {
        proof {
            assert(s@.skip(i as int)[0] == s@[i as int]);
        }
        match parse_string_exec(s, i) {
            Some((out, j)) => Some((Some(out), j)),
            None => None,
        }
    } else if n - i >= 4 && s.get_char(i) == 'n' && s.get_char(i + 1) == 'u' && s.get_char(i + 2)
        == 'l' && s.get_char(i + 3) == 'l' {
        proof {
            reveal_strlit("null");
            let t = s@.skip(i as int);
            assert(t[0] == s@[i as int] && t[1] == s@[i as int + 1] && t[2] == s@[i as int + 2]
                && t[3] == s@[i as int + 3]);
            assert(t.subrange(0, 4) =~= "null"@);
            assert(t.skip(4) =~= s@.skip(i + 4));
        }
        Some((None, i + 4))
    } else {
        proof {
            let t = s@.skip(i as int);
            if i < n {
                assert(t[0] == s@[i as int]);
            }
            if t.len() >= 4 && t.subrange(0, 4) == "null"@ {
                reveal_strlit("null");
                assert(s@[i as int] == t.subrange(0, 4)[0]);
                assert(s@[i as int + 1] == t.subrange(0, 4)[1]);
                assert(s@[i as int + 2] == t.subrange(0, 4)[2]);
                assert(s@[i as int + 3] == t.subrange(0, 4)[3]);
            }
        }
        None
    }
}

/// Reads the members of a non-empty object, mirroring the grammar's fuel.
fn parse_members_exec(s: &str, i: usize, acc: DocAcc, fuel: usize) -> (r: Option<(DocAcc, usize)>)
    requires
        i <= s@.len(),
    ensures
        r is None ==> parse_members(s@.skip(i as int), acc_view(acc), fuel as nat) is None,
        r matches Some((d, j)) ==> j <= s@.len() && parse_members(
            s@.skip(i as int),
            acc_view(acc),
            fuel as nat,
        ) == Some((acc_view(d), s@.skip(j as int))),
    decreases fuel,
{
    if fuel == 0 {
        return None;
    }
    let n = s.unicode_len();
    let j0 = skip_ws_exec(s, i);
    let (key, j1) = match parse_string_exec(s, j0) {
        None => {
            return None;
        },
        Some(p) => p,
    };
    let j2 = skip_ws_exec(s, j1);
    if j2 >= n || s.get_char(j2) != ':' {
        proof {
            if j2 < n {
                assert(s@.skip(j2 as int)[0] == s@[j2 as int]);
            }
        }
        return None;
    }
    proof {
        assert(s@.skip(j2 as int)[0] == s@[j2 as int]);
        assert(s@.skip(j2 as int).skip(1) =~= s@.skip(j2 + 1));
    }
    let j3 = skip_ws_exec(s, j2 + 1);
    let (v, j4) = match parse_value_exec(s, j3) {
        None => {
            return None;
        },
        Some(p) => p,
    };
    let ghost old_acc = acc;
    let acc2: DocAcc = if crate::text::str_eq(key.as_str(), "active_model") {
        DocAcc { active_model: Some(v), ..acc }
    } else if crate::text::str_eq(key.as_str(), "language") {
        DocAcc { language: Some(v), ..acc }
    } else if crate::text::str_eq(key.as_str(), "shortcut") {
        DocAcc { shortcut: Some(v), ..acc }
    } else if crate::text::str_eq(key.as_str(), "selected_device") {
        DocAcc { selected_device: Some(v), ..acc }
    } else {
        acc
    };
    proof {
        assert(acc_view(acc2) == doc_with(acc_view(old_acc), key@, val_view(v)));
    }
    let j5 = skip_ws_exec(s, j4);
    if j5 < n && s.get_char(j5) == ',' {
        proof {
            assert(s@.skip(j5 as int)[0] == s@[j5 as int]);
            assert(s@.skip(j5 as int).skip(1) =~= s@.skip(j5 + 1));
        }
        parse_members_exec(s, j5 + 1, acc2, fuel - 1)
    } else if j5 < n && s.get_char(j5) == '}' {
        proof {
            assert(s@.skip(j5 as int)[0] == s@[j5 as int]);
            assert(s@.skip(j5 as int).skip(1) =~= s@.skip(j5 + 1));
        }
        Some((acc2, j5 + 1))
    } else {
        proof {
            if j5 < n {
                assert(s@.skip(j5 as int)[0] == s@[j5 as int]);
            }
        }
        None
    }
}

/// Turns the collected members into the settings record, applying the
/// documented defaults for absent members.
fn doc_to_settings_exec(acc: DocAcc) -> (r: Option<WhisperSettings>)
    ensures
        r is None ==> doc_to_settings(acc_view(acc)) is None,
        r matches Some(st) ==> doc_to_settings(acc_view(acc)) == Some(st@),
{
    let ghost doc = acc_view(acc);
    let language: String = match acc.language {
        None => String::from_str("auto"),
        Some(Some(s)) => s,
        Some(None) => {
            return None;
        },
    };
    let shortcut: String = match acc.shortcut {
        None => String::from_str("Alt+Space"),
        Some(Some(s)) => s,
        Some(None) => {
            return None;
        },
    };
    let active_model: Option<String> = match acc.active_model {
        None => None,
        Some(None) => None,
        Some(Some(s)) => Some(s),
    };
    let selected_device: Option<String> = match acc.selected_device {
        None => None,
        Some(None) => None,
        Some(Some(s)) => Some(s),
    };
    Some(WhisperSettings { active_model, language, shortcut, selected_device })
}

/// Loads a settings record from its persisted text: the parsed value when
/// the text is a settings object, the documented defaults otherwise. The
/// host layer supplies the file's contents (or an empty text when the file
/// is missing, which likewise yields the defaults).
pub fn settings_from_json(text: &str) -> (r: WhisperSettings)
    ensures
        r@ == parse_settings(text@),
{
    let n = text.unicode_len();
    let j0 = skip_ws_exec(text, 0);
    proof {
        assert(text@.skip(0) =~= text@);
    }
    if j0 >= n || text.get_char(j0) != '{' {
        proof {
            if j0 < n {
                assert(text@.skip(j0 as int)[0] == text@[j0 as int]);
            }
        }
        return WhisperSettings::default();
    }
    proof {
        assert(text@.skip(j0 as int)[0] == text@[j0 as int]);
        assert(text@.skip(j0 as int).skip(1) =~= text@.skip(j0 + 1));
    }
    let j1 = skip_ws_exec(text, j0 + 1);
    if j1 < n && text.get_char(j1) == '}' {
        proof {
            assert(text@.skip(j1 as int)[0] == text@[j1 as int]);
            assert(text@.skip(j1 as int).skip(1) =~= text@.skip(j1 + 1));
        }
        let j2 = skip_ws_exec(text, j1 + 1);
        if j2 == n {
            proof {
                assert(text@.skip(j2 as int).len() == 0);
            }
            let empty = DocAcc {
                active_model: None,
                language: None,
                shortcut: None,
                selected_device: None,
            };
            proof {
                assert(acc_view(empty) == empty_doc());
            }
            match doc_to_settings_exec(empty) {
                Some(st) => {
                    return st;
                },
                None => {
                    return WhisperSettings::default();
                },
            }
        } else {
            return WhisperSettings::default();
        }
    }
    proof {
        if j1 < n {
            assert(text@.skip(j1 as int)[0] == text@[j1 as int]);
        }
    }
    let empty = DocAcc { active_model: None, language: None, shortcut: None, selected_device: None };
    proof {
        assert(acc_view(empty) == empty_doc());
        assert(text@.skip(j1 as int).len() == n - j1);
    }
    match parse_members_exec(text, j1, empty, n - j1 + 1) {
        None => WhisperSettings::default(),
        Some((acc, j)) => {
            let j6 = skip_ws_exec(text, j);
            if j6 == n {
                proof {
                    assert(text@.skip(j6 as int).len() == 0);
                }
                match doc_to_settings_exec(acc) {
                    Some(st) => st,
                    None => WhisperSettings::default(),
                }
            } else {
                WhisperSettings::default()
            }
        },
    }
}

} // verus!
