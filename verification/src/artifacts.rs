//! Synthesis of the destination launcher's two metadata artifacts: the
//! key/value instance config text and the JSON component-pack document.

use vstd::prelude::*;

use crate::instance::{
    sp_classify, CurseForgeInstance, DescriptorView, LoaderClass, LoaderClassification, classify,
};
use crate::text::{chars_to_string, str_to_chars};

verus! {

/// How many times `c` occurs in `s`.
pub open spec fn sp_count_char(s: Seq<char>, c: char) -> int
    decreases s.len(),
{
    if s.len() == 0 {
        0
    } else {
        (if s[0] == c {
            1int
        } else {
            0int
        }) + sp_count_char(s.drop_first(), c)
    }
}

/// Occurrence counts add up over concatenation.
pub proof fn lemma_count_char_concat(a: Seq<char>, b: Seq<char>, c: char)
    ensures
        sp_count_char(a + b, c) == sp_count_char(a, c) + sp_count_char(b, c),
    decreases a.len(),
{
    if a.len() == 0 {
        assert(a + b =~= b);
    } else {
        assert((a + b).drop_first() =~= a.drop_first() + b);
        lemma_count_char_concat(a.drop_first(), b, c);
    }
}

/// A sequence without a single occurrence of `c` counts zero of them.
pub proof fn lemma_count_char_zero(s: Seq<char>, c: char)
    requires
        forall|i: int| 0 <= i < s.len() ==> s[i] != c,
    ensures
        sp_count_char(s, c) == 0,
    decreases s.len(),
{
    if s.len() > 0 {
        lemma_count_char_zero(s.drop_first(), c);
    }
}

/// The eleven fixed `key=value` lines that precede the name line, each
/// followed by its newline, in the order the destination launcher's config
/// is written.
pub open spec fn sp_config_head() -> Seq<char> {
    "InstanceType=OneSix"@ + "\n"@ + "JoinServerOnLaunch=false"@ + "\n"@ + "OverrideCommands=false"@
        + "\n"@ + "OverrideConsole=false"@ + "\n"@ + "OverrideGameTime=false"@ + "\n"@
        + "OverrideJavaArgs=false"@ + "\n"@ + "OverrideJavaLocation=false"@ + "\n"@
        + "OverrideMemory=false"@ + "\n"@ + "OverrideNativeWorkarounds=false"@ + "\n"@
        + "OverrideWindow=false"@ + "\n"@ + "iconKey=default"@ + "\n"@
}

/// The full config text: the fixed override flags, the icon-key placeholder,
/// the instance name, and an empty notes field — one `key=value` pair per
/// line, in a fixed and significant order.
pub open spec fn sp_config_text(name: Seq<char>) -> Seq<char> {
    sp_config_head() + "name="@ + name + "\n"@ + "notes="@ + "\n"@
}

/// Builds the destination launcher's config text for the descriptor.
pub fn synthesize_config(descriptor: &CurseForgeInstance) -> (r: String)
    ensures
        r@ == sp_config_text(descriptor@.name),
{
    let mut out = String::from_str("InstanceType=OneSix");
    out.append("\n");
    out.append("JoinServerOnLaunch=false");
    out.append("\n");
    out.append("OverrideCommands=false");
    out.append("\n");
    out.append("OverrideConsole=false");
    out.append("\n");
    out.append("OverrideGameTime=false");
    out.append("\n");
    out.append("OverrideJavaArgs=false");
    out.append("\n");
    out.append("OverrideJavaLocation=false");
    out.append("\n");
    out.append("OverrideMemory=false");
    out.append("\n");
    out.append("OverrideNativeWorkarounds=false");
    out.append("\n");
    out.append("OverrideWindow=false");
    out.append("\n");
    out.append("iconKey=default");
    out.append("\n");
    out.append("name=");
    out.append(descriptor.name.as_str());
    out.append("\n");
    out.append("notes=");
    out.append("\n");
    proof {
        assert(out@ =~= sp_config_text(descriptor@.name));
    }
    out
}

/// The config text of every descriptor whose name holds no newline has
/// exactly thirteen newline-terminated lines, in the fixed order that
/// [`sp_config_text`] spells out.
pub proof fn lemma_config_text_thirteen_lines(name: Seq<char>)
    requires
        forall|i: int| 0 <= i < name.len() ==> name[i] != '\n',
    ensures
        sp_count_char(sp_config_text(name), '\n') == 13,
{
    let nl = "\n"@;
    reveal_strlit("\n");
    assert(sp_count_char(nl, '\n') == 1) by {
        assert(nl.len() == 1);
        assert(nl[0] == '\n');
        assert(nl.drop_first().len() == 0);
        assert(sp_count_char(nl.drop_first(), '\n') == 0);
    }
    reveal_strlit("InstanceType=OneSix");
    assert(forall|i: int|
        0 <= i < "InstanceType=OneSix"@.len() ==> "InstanceType=OneSix"@[i] != '\n');
    lemma_literal_count_zero("InstanceType=OneSix");
    reveal_strlit("JoinServerOnLaunch=false");
    assert(forall|i: int|
        0 <= i < "JoinServerOnLaunch=false"@.len() ==> "JoinServerOnLaunch=false"@[i] != '\n');
    lemma_literal_count_zero("JoinServerOnLaunch=false");
    reveal_strlit("OverrideCommands=false");
    assert(forall|i: int|
        0 <= i < "OverrideCommands=false"@.len() ==> "OverrideCommands=false"@[i] != '\n');
    lemma_literal_count_zero("OverrideCommands=false");
    reveal_strlit("OverrideConsole=false");
    assert(forall|i: int|
        0 <= i < "OverrideConsole=false"@.len() ==> "OverrideConsole=false"@[i] != '\n');
    lemma_literal_count_zero("OverrideConsole=false");
    reveal_strlit("OverrideGameTime=false");
    assert(forall|i: int|
        0 <= i < "OverrideGameTime=false"@.len() ==> "OverrideGameTime=false"@[i] != '\n');
    lemma_literal_count_zero("OverrideGameTime=false");
    reveal_strlit("OverrideJavaArgs=false");
    assert(forall|i: int|
        0 <= i < "OverrideJavaArgs=false"@.len() ==> "OverrideJavaArgs=false"@[i] != '\n');
    lemma_literal_count_zero("OverrideJavaArgs=false");
    reveal_strlit("OverrideJavaLocation=false");
    assert(forall|i: int|
        0 <= i < "OverrideJavaLocation=false"@.len() ==> "OverrideJavaLocation=false"@[i]
            != '\n');
    lemma_literal_count_zero("OverrideJavaLocation=false");
    reveal_strlit("OverrideMemory=false");
    assert(forall|i: int|
        0 <= i < "OverrideMemory=false"@.len() ==> "OverrideMemory=false"@[i] != '\n');
    lemma_literal_count_zero("OverrideMemory=false");
    reveal_strlit("OverrideNativeWorkarounds=false");
    assert(forall|i: int|
        0 <= i < "OverrideNativeWorkarounds=false"@.len() ==> "OverrideNativeWorkarounds=false"@[i]
            != '\n');
    lemma_literal_count_zero("OverrideNativeWorkarounds=false");
    reveal_strlit("OverrideWindow=false");
    assert(forall|i: int|
        0 <= i < "OverrideWindow=false"@.len() ==> "OverrideWindow=false"@[i] != '\n');
    lemma_literal_count_zero("OverrideWindow=false");
    reveal_strlit("iconKey=default");
    assert(forall|i: int| 0 <= i < "iconKey=default"@.len() ==> "iconKey=default"@[i] != '\n');
    lemma_literal_count_zero("iconKey=default");
    reveal_strlit("name=");
    assert(forall|i: int| 0 <= i < "name="@.len() ==> "name="@[i] != '\n');
    lemma_literal_count_zero("name=");
    reveal_strlit("notes=");
    assert(forall|i: int| 0 <= i < "notes="@.len() ==> "notes="@[i] != '\n');
    lemma_literal_count_zero("notes=");
    lemma_count_char_zero(name, '\n');
    lemma_count_all_concats(name);
}

/// Counting distributes over every concatenation step of the config text.
proof fn lemma_count_all_concats(name: Seq<char>)
    requires
        sp_count_char("InstanceType=OneSix"@, '\n') == 0,
        sp_count_char("JoinServerOnLaunch=false"@, '\n') == 0,
        sp_count_char("OverrideCommands=false"@, '\n') == 0,
        sp_count_char("OverrideConsole=false"@, '\n') == 0,
        sp_count_char("OverrideGameTime=false"@, '\n') == 0,
        sp_count_char("OverrideJavaArgs=false"@, '\n') == 0,
        sp_count_char("OverrideJavaLocation=false"@, '\n') == 0,
        sp_count_char("OverrideMemory=false"@, '\n') == 0,
        sp_count_char("OverrideNativeWorkarounds=false"@, '\n') == 0,
        sp_count_char("OverrideWindow=false"@, '\n') == 0,
        sp_count_char("iconKey=default"@, '\n') == 0,
        sp_count_char("name="@, '\n') == 0,
        sp_count_char("notes="@, '\n') == 0,
        sp_count_char("\n"@, '\n') == 1,
        sp_count_char(name, '\n') == 0,
    ensures
        sp_count_char(sp_config_text(name), '\n') == 13,
{
    let nl = "\n"@;
    let l1 = "InstanceType=OneSix"@ + nl;
    let l2 = l1 + "JoinServerOnLaunch=false"@;
    let l3 = l2 + nl;
    let l4 = l3 + "OverrideCommands=false"@;
    let l5 = l4 + nl;
    let l6 = l5 + "OverrideConsole=false"@;
    let l7 = l6 + nl;
    let l8 = l7 + "OverrideGameTime=false"@;
    let l9 = l8 + nl;
    let l10 = l9 + "OverrideJavaArgs=false"@;
    let l11 = l10 + nl;
    let l12 = l11 + "OverrideJavaLocation=false"@;
    let l13 = l12 + nl;
    let l14 = l13 + "OverrideMemory=false"@;
    let l15 = l14 + nl;
    let l16 = l15 + "OverrideNativeWorkarounds=false"@;
    let l17 = l16 + nl;
    let l18 = l17 + "OverrideWindow=false"@;
    let l19 = l18 + nl;
    let l20 = l19 + "iconKey=default"@;
    let l21 = l20 + nl;
    let l22 = l21 + "name="@;
    let l23 = l22 + name;
    let l24 = l23 + nl;
    let l25 = l24 + "notes="@;
    let l26 = l25 + nl;
    lemma_count_char_concat("InstanceType=OneSix"@, nl, '\n');
    lemma_count_char_concat(l1, "JoinServerOnLaunch=false"@, '\n');
    lemma_count_char_concat(l2, nl, '\n');
    lemma_count_char_concat(l3, "OverrideCommands=false"@, '\n');
    lemma_count_char_concat(l4, nl, '\n');
    lemma_count_char_concat(l5, "OverrideConsole=false"@, '\n');
    lemma_count_char_concat(l6, nl, '\n');
    lemma_count_char_concat(l7, "OverrideGameTime=false"@, '\n');
    lemma_count_char_concat(l8, nl, '\n');
    lemma_count_char_concat(l9, "OverrideJavaArgs=false"@, '\n');
    lemma_count_char_concat(l10, nl, '\n');
    lemma_count_char_concat(l11, "OverrideJavaLocation=false"@, '\n');
    lemma_count_char_concat(l12, nl, '\n');
    lemma_count_char_concat(l13, "OverrideMemory=false"@, '\n');
    lemma_count_char_concat(l14, nl, '\n');
    lemma_count_char_concat(l15, "OverrideNativeWorkarounds=false"@, '\n');
    lemma_count_char_concat(l16, nl, '\n');
    lemma_count_char_concat(l17, "OverrideWindow=false"@, '\n');
    lemma_count_char_concat(l18, nl, '\n');
    lemma_count_char_concat(l19, "iconKey=default"@, '\n');
    lemma_count_char_concat(l20, nl, '\n');
    lemma_count_char_concat(l21, "name="@, '\n');
    lemma_count_char_concat(l22, name, '\n');
    lemma_count_char_concat(l23, nl, '\n');
    lemma_count_char_concat(l24, "notes="@, '\n');
    lemma_count_char_concat(l25, nl, '\n');
    assert(sp_config_text(name) == l26);
}

/// A string literal without newlines counts zero of them; the proof scans
/// the revealed characters.
proof fn lemma_literal_count_zero(s: &str)
    requires
        forall|i: int| 0 <= i < s@.len() ==> s@[i] != '\n',
    ensures
        sp_count_char(s@, '\n') == 0,
{
    lemma_count_char_zero(s@, '\n');
}

/// How one character is written inside a JSON string value: quotes and
/// backslashes are escaped, as are the common whitespace controls.
pub open spec fn sp_escaped_char(c: char) -> Seq<char> {
    if c == '"' {
        "\\\""@
    } else if c == '\\' {
        "\\\\"@
    } else if c == '\n' {
        "\\n"@
    } else if c == '\r' {
        "\\r"@
    } else if c == '\t' {
        "\\t"@
    } else {
        seq![c]
    }
}

/// The body of a JSON string value holding exactly the characters of `s`.
pub open spec fn sp_json_escape(s: Seq<char>) -> Seq<char>
    decreases s.len(),
{
    if s.len() == 0 {
        Seq::<char>::empty()
    } else {
        sp_escaped_char(s[0]) + sp_json_escape(s.drop_first())
    }
}

/// Escaping the last character separately changes nothing.
proof fn lemma_json_escape_push(s: Seq<char>, c: char)
    ensures
        sp_json_escape(s.push(c)) == sp_json_escape(s) + sp_escaped_char(c),
    decreases s.len(),
{
    if s.len() == 0 {
        assert(s.push(c).len() == 1);
        assert(s.push(c)[0] == c);
        assert(s.push(c).drop_first() =~= Seq::<char>::empty());
        assert(sp_json_escape(s.push(c).drop_first()) == Seq::<char>::empty());
        assert(sp_json_escape(s.push(c)) == sp_escaped_char(c) + Seq::<char>::empty());
        assert(sp_json_escape(s) == Seq::<char>::empty());
        assert(sp_json_escape(s.push(c)) =~= sp_json_escape(s) + sp_escaped_char(c));
    } else {
        assert(s.push(c).drop_first() =~= s.drop_first().push(c));
        lemma_json_escape_push(s.drop_first(), c);
        assert(sp_json_escape(s.push(c)) =~= sp_json_escape(s) + sp_escaped_char(c));
    }
}

/// Escapes `s` for use as the body of a JSON string value.
fn json_escape(s: &str) -> (r: Vec<char>)
    ensures
        r@ == sp_json_escape(s@),
{
    let v = str_to_chars(s);
    let mut out: Vec<char> = Vec::new();
    let mut i: usize = 0;
    proof {
        assert(v@.take(0) =~= Seq::<char>::empty());
    }
    while i < v.len()
        invariant
            i <= v@.len(),
            v@ == s@,
            out@ == sp_json_escape(v@.take(i as int)),
        decreases v@.len() - i,
    {
        let c = v[i];
        if c == '"' {
            out.push('\\');
            out.push('"');
        } else if c == '\\' {
            out.push('\\');
            out.push('\\');
        } else if c == '\n' {
            out.push('\\');
            out.push('n');
        } else if c == '\r' {
            out.push('\\');
            out.push('r');
        } else if c == '\t' {
            out.push('\\');
            out.push('t');
        } else {
            out.push(c);
        }
        proof {
            reveal_strlit("\\\"");
            reveal_strlit("\\\\");
            reveal_strlit("\\n");
            reveal_strlit("\\r");
            reveal_strlit("\\t");
            lemma_json_escape_push(v@.take(i as int), c);
            assert(v@.take(i + 1) =~= v@.take(i as int).push(c));
            assert(out@ =~= sp_json_escape(v@.take(i as int)) + sp_escaped_char(c));
        }
        i += 1;
    }
    proof {
        assert(v@.take(v@.len() as int) =~= v@);
    }
    out
}

/// The component entry describing the mod loader, chosen by classification:
/// Forge and Fabric get their uid and version; an unknown loader keeps its
/// array slot as an empty placeholder component, which the destination
/// launcher's tooling expects.
pub open spec fn sp_loader_component(class: LoaderClass) -> Seq<char> {
    match class {
        LoaderClass::Forge(v) => "{\"cachedName\":\"Forge\",\"uid\":\"net.minecraftforge\",\"version\":\""@
            + sp_json_escape(v) + "\"}"@,
        LoaderClass::Fabric(v) => "{\"cachedName\":\"Fabric Loader\",\"uid\":\"net.fabricmc.fabric-loader\",\"version\":\""@
            + sp_json_escape(v) + "\"}"@,
        LoaderClass::Unknown => "{}"@,
    }
}

/// The component-pack document: a Minecraft component carrying the
/// manifest's Minecraft version, the loader component, and the fixed format
/// version.
pub open spec fn sp_pack_text(d: DescriptorView) -> Seq<char> {
    "{\"components\":[{\"cachedName\":\"Minecraft\",\"important\":true,\"uid\":\"net.minecraft\",\"version\":\""@
        + sp_json_escape(d.minecraft_version) + "\"},"@ + sp_loader_component(
        sp_classify(d.loader_name, d.loader_version),
    ) + "],\"formatVersion\":1}"@
}

/// Builds the destination launcher's component-pack document for the
/// descriptor.
pub fn synthesize_component_pack(descriptor: &CurseForgeInstance) -> (r: String)
    ensures
        r@ == sp_pack_text(descriptor@),
{
    let mut out = String::from_str(
        "{\"components\":[{\"cachedName\":\"Minecraft\",\"important\":true,\"uid\":\"net.minecraft\",\"version\":\"",
    );
    let mc = json_escape(descriptor.minecraft_version.as_str());
    out.append(chars_to_string(&mc).as_str());
    out.append("\"},");
    let class = classify(descriptor.loader_name.as_str(), descriptor.loader_version.as_str());
    match &class {
        LoaderClassification::Forge(v) => {
            out.append("{\"cachedName\":\"Forge\",\"uid\":\"net.minecraftforge\",\"version\":\"");
            let ev = json_escape(v.as_str());
            out.append(chars_to_string(&ev).as_str());
            out.append("\"}");
        },
        LoaderClassification::Fabric(v) => {
            out.append(
                "{\"cachedName\":\"Fabric Loader\",\"uid\":\"net.fabricmc.fabric-loader\",\"version\":\"",
            );
            let ev = json_escape(v.as_str());
            out.append(chars_to_string(&ev).as_str());
            out.append("\"}");
        },
        LoaderClassification::Unknown => {
            out.append("{}");
        },
    }
    out.append("],\"formatVersion\":1}");
    proof {
        assert(out@ =~= sp_pack_text(descriptor@));
    }
    out
}

/// The synthesized destination instance: the directory name and the two
/// metadata artifacts that the link operation writes into it.
pub struct MultiMCInstance {
    /// The destination directory's name, taken from the descriptor.
    pub name: String,
    /// The key/value config text.
    pub config_text: String,
    /// The JSON component-pack document.
    pub pack_text: String,
}

impl MultiMCInstance {
    /// Builds both artifacts of the descriptor's destination instance.
    pub fn synthesize(descriptor: &CurseForgeInstance) -> (r: MultiMCInstance)
        ensures
            r.name@ == descriptor@.name,
            r.config_text@ == sp_config_text(descriptor@.name),
            r.pack_text@ == sp_pack_text(descriptor@),
    {
        MultiMCInstance {
            name: descriptor.name.clone(),
            config_text: synthesize_config(descriptor),
            pack_text: synthesize_component_pack(descriptor),
        }
    }
}

} // verus!
