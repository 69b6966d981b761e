//! `Info.plist` generation for `.driver` bundles.
//!
//! `coreaudiod` discovers an AudioServerPlugin by reading the
//! `Info.plist` inside its `.driver` bundle. Beyond the standard
//! `CFBundle*` keys, the plist carries the CFPlugIn registration
//! dictionaries: `CFPlugInFactories` maps the driver's factory UUID
//! to the name of its factory function, and `CFPlugInTypes` maps the
//! AudioServerPlugin type UUID to the list of factory UUIDs that
//! implement it.

use vstd::prelude::*;

use crate::text::push_str;

verus! {

/// `kAudioServerPlugInTypeUUID` — the CFPlugIn *type* UUID every
/// AudioServerPlugin implements. `coreaudiod` looks for factories
/// registered under this UUID in `CFPlugInTypes`.
pub const AUDIO_SERVER_PLUGIN_TYPE_UUID: &'static str = "443ABAB8-E7B3-491A-B985-BEB9187030DB";

/// Static configuration for one `.driver` bundle's `Info.plist`.
#[derive(Copy, Clone, PartialEq, Eq, Hash, Debug)]
pub struct BundleConfig {
    /// `CFBundleIdentifier` — reverse-DNS bundle id.
    pub bundle_identifier: &'static str,
    /// `CFBundleName` — short display name for the bundle.
    pub bundle_name: &'static str,
    /// `CFBundleExecutable` — the file name of the library inside
    /// `Contents/MacOS/`.
    pub executable: &'static str,
    /// `CFBundleVersion` / `CFBundleShortVersionString`.
    pub version: &'static str,
    /// The CFPlugIn *factory* UUID for this driver.
    pub factory_uuid: &'static str,
    /// The name of the exported CFPlugIn factory function.
    pub factory_function: &'static str,
}

impl BundleConfig {
    /// Begin a bundle configuration with the CFPlugIn registration
    /// fields. `bundle_name` and `executable` both default to
    /// `bundle_identifier`, and `version` to `"0.0.0"`.
    pub fn new(
        bundle_identifier: &'static str,
        factory_uuid: &'static str,
        factory_function: &'static str,
    ) -> (r: Self)
        ensures
            r.bundle_identifier@ == bundle_identifier@,
            r.bundle_name@ == bundle_identifier@,
            r.executable@ == bundle_identifier@,
            r.version@ == "0.0.0"@,
            r.factory_uuid@ == factory_uuid@,
            r.factory_function@ == factory_function@,
    {
        BundleConfig {
            bundle_identifier,
            bundle_name: bundle_identifier,
            executable: bundle_identifier,
            version: "0.0.0",
            factory_uuid,
            factory_function,
        }
    }

    /// Builder-style: set `CFBundleName`.
    pub fn with_bundle_name(self, name: &'static str) -> (r: Self)
        ensures
            r == (BundleConfig { bundle_name: name, ..self }),
    {
        BundleConfig { bundle_name: name, ..self }
    }

    /// Builder-style: set `CFBundleExecutable`.
    pub fn with_executable(self, executable: &'static str) -> (r: Self)
        ensures
            r == (BundleConfig { executable, ..self }),
    {
        BundleConfig { executable, ..self }
    }

    /// Builder-style: set `CFBundleVersion` /
    /// `CFBundleShortVersionString`.
    pub fn with_version(self, version: &'static str) -> (r: Self)
        ensures
            r == (BundleConfig { version, ..self }),
    {
        BundleConfig { version, ..self }
    }
}

/// The XML escape of one character: the five predefined entities
/// for `&`, `<`, `>`, `"` and `'`, the character itself otherwise.
pub open spec fn escape_char(c: char) -> Seq<char> {
    if c == '&' {
        seq!['&', 'a', 'm', 'p', ';']
    } else if c == '<' {
        seq!['&', 'l', 't', ';']
    } else if c == '>' {
        seq!['&', 'g', 't', ';']
    } else if c == '"' {
        seq!['&', 'q', 'u', 'o', 't', ';']
    } else if c == '\'' {
        seq!['&', 'a', 'p', 'o', 's', ';']
    } else {
        seq![c]
    }
}

/// The XML escape of a text: each character escaped in turn.
pub open spec fn escape_text(s: Seq<char>) -> Seq<char>
    decreases s.len(),
{
    if s.len() == 0 {
        Seq::empty()
    } else {
        escape_text(s.drop_last()) + escape_char(s.last())
    }
}

/// Escape the five XML predefined entities so arbitrary identifier
/// and name strings embed safely in the plist body.
pub fn escape_xml(s: &str) -> (r: String)
    ensures
        r@ == escape_text(s@),
{
    broadcast use vstd::string::group_string_axioms;
    let mut escaped = String::new();
    let n = s.unicode_len();
    let mut i: usize = 0;
    while i < n
        invariant
            n == s@.len(),
            i <= n,
            escaped@ == escape_text(s@.subrange(0, i as int)),
        decreases n - i,
    {
        let ch = s.get_char(i);
        proof {
            assert(s@.subrange(0, i as int + 1).drop_last() =~= s@.subrange(0, i as int));
        }
        if ch == '&' {
            push_str(&mut escaped, "&amp;");
        } else if ch == '<' {
            push_str(&mut escaped, "&lt;");
        } else if ch == '>' {
            push_str(&mut escaped, "&gt;");
        } else if ch == '"' {
            push_str(&mut escaped, "&quot;");
        } else if ch == '\'' {
            push_str(&mut escaped, "&apos;");
        } else {
            crate::text::push_char(&mut escaped, ch);
        }
        proof {
            reveal_strlit("&amp;");
            reveal_strlit("&lt;");
            reveal_strlit("&gt;");
            reveal_strlit("&quot;");
            reveal_strlit("&apos;");
            assert(escaped@ =~= escape_text(s@.subrange(0, i as int + 1)));
        }
        i += 1;
    }
    proof {
        assert(s@.subrange(0, n as int) =~= s@);
    }
    escaped
}

/// `level` tab stops.
pub open spec fn indent_text(level: nat) -> Seq<char> {
    Seq::new(level, |_i: int| '\t')
}

/// One line of markup written as is, at `level` tab stops.
pub open spec fn raw_line(level: nat, markup: Seq<char>) -> Seq<char> {
    indent_text(level) + markup + seq!['\n']
}

/// One `<tag>text</tag>` line at `level` tab stops, with `text`
/// XML-escaped.
pub open spec fn element_line(level: nat, tag: Seq<char>, text: Seq<char>) -> Seq<char> {
    indent_text(level) + seq!['<'] + tag + seq!['>'] + escape_text(text) + seq!['<', '/'] + tag
        + seq!['>', '\n']
}

/// A top-level `<key>` / `<string>` pair.
pub open spec fn key_string_text(key: Seq<char>, value: Seq<char>) -> Seq<char> {
    element_line(1, "key"@, key) + element_line(1, "string"@, value)
}

/// The complete `Info.plist` document for a bundle configuration.
pub open spec fn plist_text(c: BundleConfig) -> Seq<char> {
    raw_line(0, "<?xml version=\"1.0\" encoding=\"UTF-8\"?>"@)
        + raw_line(0, "<!DOCTYPE plist PUBLIC \"-//Apple//DTD PLIST 1.0//EN\" \"http://www.apple.com/DTDs/PropertyList-1.0.dtd\">"@)
        + raw_line(0, "<plist version=\"1.0\">"@)
        + raw_line(0, "<dict>"@)
        + key_string_text("CFBundleInfoDictionaryVersion"@, "6.0"@)
        + key_string_text("CFBundleIdentifier"@, c.bundle_identifier@)
        + key_string_text("CFBundleName"@, c.bundle_name@)
        + key_string_text("CFBundleExecutable"@, c.executable@)
        + key_string_text("CFBundleVersion"@, c.version@)
        + key_string_text("CFBundleShortVersionString"@, c.version@)
        + key_string_text("CFBundlePackageType"@, "BNDL"@)
        + key_string_text("CFPlugInDynamicRegistration"@, "NO"@)
        + raw_line(1, "<key>CFPlugInFactories</key>"@)
        + raw_line(1, "<dict>"@)
        + element_line(2, "key"@, c.factory_uuid@)
        + element_line(2, "string"@, c.factory_function@)
        + raw_line(1, "</dict>"@)
        + raw_line(1, "<key>CFPlugInTypes</key>"@)
        + raw_line(1, "<dict>"@)
        + element_line(2, "key"@, AUDIO_SERVER_PLUGIN_TYPE_UUID@)
        + raw_line(2, "<array>"@)
        + element_line(3, "string"@, c.factory_uuid@)
        + raw_line(2, "</array>"@)
        + raw_line(1, "</dict>"@)
        + raw_line(0, "</dict>"@)
        + raw_line(0, "</plist>"@)
}

/// Append `level` tab stops to `out`.
fn indent(out: &mut String, level: usize)
    ensures
        final(out)@ == old(out)@ + indent_text(level as nat),
{
    let mut i: usize = 0;
    while i < level
        invariant
            i <= level,
            out@ == old(out)@ + indent_text(i as nat),
        decreases level - i,
    {
        crate::text::push_char(out, '\t');
        proof {
            assert(old(out)@ + indent_text(i as nat + 1) =~= old(out)@ + indent_text(i as nat) + seq!['\t']);
        }
        i += 1;
    }
}

/// Append a line of markup, as is, at `level` tab stops.
fn write_line(out: &mut String, level: usize, markup: &str)
    ensures
        final(out)@ == old(out)@ + raw_line(level as nat, markup@),
{
    indent(out, level);
    push_str(out, markup);
    crate::text::push_char(out, '\n');
    proof {
        assert(out@ =~= old(out)@ + raw_line(level as nat, markup@));
    }
}

/// Append a `<tag>text</tag>` line at `level` tab stops, escaping
/// `text`.
fn write_element(out: &mut String, level: usize, tag: &str, text: &str)
    ensures
        final(out)@ == old(out)@ + element_line(level as nat, tag@, text@),
{
    indent(out, level);
    crate::text::push_char(out, '<');
    push_str(out, tag);
    crate::text::push_char(out, '>');
    let escaped = escape_xml(text);
    push_str(out, escaped.as_str());
    crate::text::push_char(out, '<');
    crate::text::push_char(out, '/');
    push_str(out, tag);
    crate::text::push_char(out, '>');
    crate::text::push_char(out, '\n');
    proof {
        assert(out@ =~= old(out)@ + element_line(level as nat, tag@, text@));
    }
}

/// Append a top-level `<key>` / `<string>` pair, escaping both.
fn key_string(out: &mut String, key: &str, value: &str)
    ensures
        final(out)@ == old(out)@ + key_string_text(key@, value@),
{
    write_element(out, 1, "key", key);
    write_element(out, 1, "string", value);
    proof {
        assert(out@ =~= old(out)@ + key_string_text(key@, value@));
    }
}

/// Generate the complete `Info.plist` XML for a `.driver` bundle:
/// the XML and DOCTYPE preamble; the standard `CFBundle*` keys
/// (with `CFBundlePackageType = "BNDL"`);
/// `CFPlugInDynamicRegistration = "NO"`; `CFPlugInFactories`
/// mapping the factory UUID to the factory function; and
/// `CFPlugInTypes` mapping [`AUDIO_SERVER_PLUGIN_TYPE_UUID`] to an
/// array holding the factory UUID. String values are XML-escaped.
pub fn generate(config: &BundleConfig) -> (r: String)
    ensures
        r@ == plist_text(*config),
{
    let mut out = String::new();
    write_line(&mut out, 0, "<?xml version=\"1.0\" encoding=\"UTF-8\"?>");
    write_line(
        &mut out,
        0,
        "<!DOCTYPE plist PUBLIC \"-//Apple//DTD PLIST 1.0//EN\" \"http://www.apple.com/DTDs/PropertyList-1.0.dtd\">",
    );
    write_line(&mut out, 0, "<plist version=\"1.0\">");
    write_line(&mut out, 0, "<dict>");
    key_string(&mut out, "CFBundleInfoDictionaryVersion", "6.0");
    key_string(&mut out, "CFBundleIdentifier", config.bundle_identifier);
    key_string(&mut out, "CFBundleName", config.bundle_name);
    key_string(&mut out, "CFBundleExecutable", config.executable);
    key_string(&mut out, "CFBundleVersion", config.version);
    key_string(&mut out, "CFBundleShortVersionString", config.version);
    key_string(&mut out, "CFBundlePackageType", "BNDL");
    key_string(&mut out, "CFPlugInDynamicRegistration", "NO");
    write_line(&mut out, 1, "<key>CFPlugInFactories</key>");
    write_line(&mut out, 1, "<dict>");
    write_element(&mut out, 2, "key", config.factory_uuid);
    write_element(&mut out, 2, "string", config.factory_function);
    write_line(&mut out, 1, "</dict>");
    write_line(&mut out, 1, "<key>CFPlugInTypes</key>");
    write_line(&mut out, 1, "<dict>");
    write_element(&mut out, 2, "key", AUDIO_SERVER_PLUGIN_TYPE_UUID);
    write_line(&mut out, 2, "<array>");
    write_element(&mut out, 3, "string", config.factory_uuid);
    write_line(&mut out, 2, "</array>");
    write_line(&mut out, 1, "</dict>");
    write_line(&mut out, 0, "</dict>");
    write_line(&mut out, 0, "</plist>");
    proof {
        assert(out@ =~= plist_text(*config));
    }
    out
}

/// `c` is one of the characters XML reserves for markup.
pub open spec fn is_markup_char(c: char) -> bool {
    c == '<' || c == '>' || c == '"' || c == '\''
}

/// Escaping leaves no markup character in the text: whatever a
/// configuration string holds, its escaped form cannot open or close
/// a tag or an attribute value.
pub proof fn lemma_escape_has_no_markup(s: Seq<char>)
    ensures
        forall|i: int| 0 <= i < escape_text(s).len() ==> !is_markup_char(#[trigger] escape_text(s)[i]),
    decreases s.len(),
{
    if s.len() > 0 {
        lemma_escape_has_no_markup(s.drop_last());
        let head = escape_text(s.drop_last());
        let tail = escape_char(s.last());
        assert forall|i: int| 0 <= i < escape_text(s).len() implies !is_markup_char(#[trigger] escape_text(s)[i]) by {
            if i < head.len() {
                assert(escape_text(s)[i] == head[i]);
            } else {
                assert(escape_text(s)[i] == tail[i - head.len()]);
            }
        }
    }
}

/// Text that holds none of the five characters XML escapes is
/// written unchanged.
pub proof fn lemma_escape_plain_text_is_identity(s: Seq<char>)
    requires
        forall|i: int| 0 <= i < s.len() ==> !is_markup_char(#[trigger] s[i]) && s[i] != '&',
    ensures
        escape_text(s) == s,
    decreases s.len(),
{
    if s.len() > 0 {
        lemma_escape_plain_text_is_identity(s.drop_last());
        assert(s.drop_last().push(s.last()) =~= s);
    }
}

} // verus!
