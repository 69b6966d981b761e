use tympan_aspl::bundle::plist::{escape_xml, generate, AUDIO_SERVER_PLUGIN_TYPE_UUID};
use tympan_aspl::BundleConfig;

fn sample_config() -> BundleConfig {
    BundleConfig::new(
        "com.example.MinimalLoopback",
        "9E5B7C2A-1D3F-4A6B-8C9D-0E1F2A3B4C5D",
        "TympanAsplDriverFactory",
    )
    .with_bundle_name("Minimal Loopback")
    .with_executable("MinimalLoopback")
    .with_version("0.1.0")
}

#[test]
fn new_defaults_optional_fields_to_the_identifier() {
    let c = BundleConfig::new("com.example.Foo", "UUID", "Factory");
    assert_eq!(c.bundle_name, "com.example.Foo");
    assert_eq!(c.executable, "com.example.Foo");
    assert_eq!(c.version, "0.0.0");
}

#[test]
fn builder_setters_override_defaults() {
    let c = sample_config();
    assert_eq!(c.bundle_name, "Minimal Loopback");
    assert_eq!(c.executable, "MinimalLoopback");
    assert_eq!(c.version, "0.1.0");
}

#[test]
fn generated_plist_has_xml_and_doctype_preamble() {
    let plist = generate(&sample_config());
    assert!(plist.starts_with("<?xml version=\"1.0\" encoding=\"UTF-8\"?>\n"));
    assert!(plist.contains("<!DOCTYPE plist PUBLIC"));
    assert!(plist.contains("<plist version=\"1.0\">"));
    assert!(plist.trim_end().ends_with("</plist>"));
}

#[test]
fn generated_plist_embeds_all_cfbundle_keys() {
    let plist = generate(&sample_config());
    for key in [
        "CFBundleInfoDictionaryVersion",
        "CFBundleIdentifier",
        "CFBundleName",
        "CFBundleExecutable",
        "CFBundleVersion",
        "CFBundleShortVersionString",
        "CFBundlePackageType",
        "CFPlugInDynamicRegistration",
        "CFPlugInFactories",
        "CFPlugInTypes",
    ] {
        assert!(
            plist.contains(&format!("<key>{key}</key>")),
            "missing key {key} in:\n{plist}"
        );
    }
}

#[test]
fn generated_plist_embeds_identity_and_factory_values() {
    let plist = generate(&sample_config());
    assert!(plist.contains("<string>com.example.MinimalLoopback</string>"));
    assert!(plist.contains("<string>Minimal Loopback</string>"));
    assert!(plist.contains("<string>MinimalLoopback</string>"));
    assert!(plist.contains("<string>0.1.0</string>"));
    assert!(plist.contains("<string>BNDL</string>"));
    assert!(plist.contains("<string>TympanAsplDriverFactory</string>"));
    // The factory UUID appears twice: once as the CFPlugInFactories
    // key, once in the CFPlugInTypes array.
    assert_eq!(
        plist.matches("9E5B7C2A-1D3F-4A6B-8C9D-0E1F2A3B4C5D").count(),
        2
    );
}

#[test]
fn generated_plist_wires_the_audioserver_type_uuid() {
    let plist = generate(&sample_config());
    assert!(plist.contains(&format!("<key>{AUDIO_SERVER_PLUGIN_TYPE_UUID}</key>")));
    assert!(plist.contains("<array>"));
    assert!(plist.contains("</array>"));
}

#[test]
fn audioserver_type_uuid_matches_core_audio() {
    assert_eq!(
        AUDIO_SERVER_PLUGIN_TYPE_UUID,
        "443ABAB8-E7B3-491A-B985-BEB9187030DB"
    );
}

#[test]
fn string_values_are_xml_escaped() {
    let config = BundleConfig::new("com.example.A&B", "UUID", "Factory<dangerous>")
        .with_bundle_name("Quote\"Test");
    let plist = generate(&config);
    assert!(plist.contains("com.example.A&amp;B"));
    assert!(plist.contains("Factory&lt;dangerous&gt;"));
    assert!(plist.contains("Quote&quot;Test"));
    assert!(!plist.contains("A&B"));
    assert!(!plist.contains("<dangerous>"));
}

#[test]
fn escape_xml_handles_all_five_entities() {
    assert_eq!(
        escape_xml("a&b<c>d\"e'f"),
        "a&amp;b&lt;c&gt;d&quot;e&apos;f"
    );
    assert_eq!(escape_xml("nothing to escape"), "nothing to escape");
}

#[test]
fn key_value_pairs_are_balanced() {
    let plist = generate(&sample_config());
    assert_eq!(
        plist.matches("<dict>").count(),
        plist.matches("</dict>").count()
    );
    assert_eq!(
        plist.matches("<array>").count(),
        plist.matches("</array>").count()
    );
}

#[test]
fn generated_plist_is_the_exact_document() {
    let config = BundleConfig::new("a.b", "U-1", "F");
    let expected = "<?xml version=\"1.0\" encoding=\"UTF-8\"?>\n\
<!DOCTYPE plist PUBLIC \"-//Apple//DTD PLIST 1.0//EN\" \"http://www.apple.com/DTDs/PropertyList-1.0.dtd\">\n\
<plist version=\"1.0\">\n\
<dict>\n\
\t<key>CFBundleInfoDictionaryVersion</key>\n\
\t<string>6.0</string>\n\
\t<key>CFBundleIdentifier</key>\n\
\t<string>a.b</string>\n\
\t<key>CFBundleName</key>\n\
\t<string>a.b</string>\n\
\t<key>CFBundleExecutable</key>\n\
\t<string>a.b</string>\n\
\t<key>CFBundleVersion</key>\n\
\t<string>0.0.0</string>\n\
\t<key>CFBundleShortVersionString</key>\n\
\t<string>0.0.0</string>\n\
\t<key>CFBundlePackageType</key>\n\
\t<string>BNDL</string>\n\
\t<key>CFPlugInDynamicRegistration</key>\n\
\t<string>NO</string>\n\
\t<key>CFPlugInFactories</key>\n\
\t<dict>\n\
\t\t<key>U-1</key>\n\
\t\t<string>F</string>\n\
\t</dict>\n\
\t<key>CFPlugInTypes</key>\n\
\t<dict>\n\
\t\t<key>443ABAB8-E7B3-491A-B985-BEB9187030DB</key>\n\
\t\t<array>\n\
\t\t\t<string>U-1</string>\n\
\t\t</array>\n\
\t</dict>\n\
</dict>\n\
</plist>\n";
    assert_eq!(generate(&config), expected);
}

#[test]
fn escaped_text_holds_no_markup_characters() {
    let escaped = escape_xml("<a href='x'>\"&\"</a>");
    assert!(!escaped.contains('<'));
    assert!(!escaped.contains('>'));
    assert!(!escaped.contains('"'));
    assert!(!escaped.contains('\''));
    assert_eq!(escape_xml(""), "");
}
