//! What each named preset holds and sends, stated over the option names
//! themselves.
use vstd::prelude::*;

use crate::error::{opt_view, ErrorView};
use crate::json::JsonView;
use crate::laws::{lemma_preset_body_key, sent_body, used_preset};
use crate::presets::{balanced_options, maximum_options, preset_options, preset_table, standard_options};
use crate::request::{
    prepare_outcome, preset_key, request_key, request_password, EnvCredentials, ProtectRequest,
};
use crate::strmap::{entry_lookup, has_key, lemma_key_position};
use crate::text::{all_ascii, ascii_lower};

verus! {

/// The option names and the fixed member names differ from one another,
/// and so do the preset names.
pub proof fn lemma_names_distinct()
    ensures
        "Compress"@ != "EncodeStrings"@,
        "Compress"@ != "EncryptStrings"@,
        "Compress"@ != "MoveStringsIntoArray"@,
        "Compress"@ != "NameMangling"@,
        "Compress"@ != "DeepObfuscate"@,
        "Compress"@ != "FlatTransform"@,
        "Compress"@ != "CodeTransposition"@,
        "Compress"@ != "ProtectMembers"@,
        "Compress"@ != "RenameGlobals"@,
        "Compress"@ != "MoveMembers"@,
        "Compress"@ != "DeadCodeInsertion"@,
        "Compress"@ != "APIKey"@,
        "Compress"@ != "APIPwd"@,
        "Compress"@ != "Name"@,
        "Compress"@ != "ReleaseLabel"@,
        "Compress"@ != "Items"@,
        "EncodeStrings"@ != "EncryptStrings"@,
        "EncodeStrings"@ != "MoveStringsIntoArray"@,
        "EncodeStrings"@ != "NameMangling"@,
        "EncodeStrings"@ != "DeepObfuscate"@,
        "EncodeStrings"@ != "FlatTransform"@,
        "EncodeStrings"@ != "CodeTransposition"@,
        "EncodeStrings"@ != "ProtectMembers"@,
        "EncodeStrings"@ != "RenameGlobals"@,
        "EncodeStrings"@ != "MoveMembers"@,
        "EncodeStrings"@ != "DeadCodeInsertion"@,
        "EncodeStrings"@ != "APIKey"@,
        "EncodeStrings"@ != "APIPwd"@,
        "EncodeStrings"@ != "Name"@,
        "EncodeStrings"@ != "ReleaseLabel"@,
        "EncodeStrings"@ != "Items"@,
        "EncryptStrings"@ != "MoveStringsIntoArray"@,
        "EncryptStrings"@ != "NameMangling"@,
        "EncryptStrings"@ != "DeepObfuscate"@,
        "EncryptStrings"@ != "FlatTransform"@,
        "EncryptStrings"@ != "CodeTransposition"@,
        "EncryptStrings"@ != "ProtectMembers"@,
        "EncryptStrings"@ != "RenameGlobals"@,
        "EncryptStrings"@ != "MoveMembers"@,
        "EncryptStrings"@ != "DeadCodeInsertion"@,
        "EncryptStrings"@ != "APIKey"@,
        "EncryptStrings"@ != "APIPwd"@,
        "EncryptStrings"@ != "Name"@,
        "EncryptStrings"@ != "ReleaseLabel"@,
        "EncryptStrings"@ != "Items"@,
        "MoveStringsIntoArray"@ != "NameMangling"@,
        "MoveStringsIntoArray"@ != "DeepObfuscate"@,
        "MoveStringsIntoArray"@ != "FlatTransform"@,
        "MoveStringsIntoArray"@ != "CodeTransposition"@,
        "MoveStringsIntoArray"@ != "ProtectMembers"@,
        "MoveStringsIntoArray"@ != "RenameGlobals"@,
        "MoveStringsIntoArray"@ != "MoveMembers"@,
        "MoveStringsIntoArray"@ != "DeadCodeInsertion"@,
        "MoveStringsIntoArray"@ != "APIKey"@,
        "MoveStringsIntoArray"@ != "APIPwd"@,
        "MoveStringsIntoArray"@ != "Name"@,
        "MoveStringsIntoArray"@ != "ReleaseLabel"@,
        "MoveStringsIntoArray"@ != "Items"@,
        "NameMangling"@ != "DeepObfuscate"@,
        "NameMangling"@ != "FlatTransform"@,
        "NameMangling"@ != "CodeTransposition"@,
        "NameMangling"@ != "ProtectMembers"@,
        "NameMangling"@ != "RenameGlobals"@,
        "NameMangling"@ != "MoveMembers"@,
        "NameMangling"@ != "DeadCodeInsertion"@,
        "NameMangling"@ != "APIKey"@,
        "NameMangling"@ != "APIPwd"@,
        "NameMangling"@ != "Name"@,
        "NameMangling"@ != "ReleaseLabel"@,
        "NameMangling"@ != "Items"@,
        "DeepObfuscate"@ != "FlatTransform"@,
        "DeepObfuscate"@ != "CodeTransposition"@,
        "DeepObfuscate"@ != "ProtectMembers"@,
        "DeepObfuscate"@ != "RenameGlobals"@,
        "DeepObfuscate"@ != "MoveMembers"@,
        "DeepObfuscate"@ != "DeadCodeInsertion"@,
        "DeepObfuscate"@ != "APIKey"@,
        "DeepObfuscate"@ != "APIPwd"@,
        "DeepObfuscate"@ != "Name"@,
        "DeepObfuscate"@ != "ReleaseLabel"@,
        "DeepObfuscate"@ != "Items"@,
        "FlatTransform"@ != "CodeTransposition"@,
        "FlatTransform"@ != "ProtectMembers"@,
        "FlatTransform"@ != "RenameGlobals"@,
        "FlatTransform"@ != "MoveMembers"@,
        "FlatTransform"@ != "DeadCodeInsertion"@,
        "FlatTransform"@ != "APIKey"@,
        "FlatTransform"@ != "APIPwd"@,
        "FlatTransform"@ != "Name"@,
        "FlatTransform"@ != "ReleaseLabel"@,
        "FlatTransform"@ != "Items"@,
        "CodeTransposition"@ != "ProtectMembers"@,
        "CodeTransposition"@ != "RenameGlobals"@,
        "CodeTransposition"@ != "MoveMembers"@,
        "CodeTransposition"@ != "DeadCodeInsertion"@,
        "CodeTransposition"@ != "APIKey"@,
        "CodeTransposition"@ != "APIPwd"@,
        "CodeTransposition"@ != "Name"@,
        "CodeTransposition"@ != "ReleaseLabel"@,
        "CodeTransposition"@ != "Items"@,
        "ProtectMembers"@ != "RenameGlobals"@,
        "ProtectMembers"@ != "MoveMembers"@,
        "ProtectMembers"@ != "DeadCodeInsertion"@,
        "ProtectMembers"@ != "APIKey"@,
        "ProtectMembers"@ != "APIPwd"@,
        "ProtectMembers"@ != "Name"@,
        "ProtectMembers"@ != "ReleaseLabel"@,
        "ProtectMembers"@ != "Items"@,
        "RenameGlobals"@ != "MoveMembers"@,
        "RenameGlobals"@ != "DeadCodeInsertion"@,
        "RenameGlobals"@ != "APIKey"@,
        "RenameGlobals"@ != "APIPwd"@,
        "RenameGlobals"@ != "Name"@,
        "RenameGlobals"@ != "ReleaseLabel"@,
        "RenameGlobals"@ != "Items"@,
        "MoveMembers"@ != "DeadCodeInsertion"@,
        "MoveMembers"@ != "APIKey"@,
        "MoveMembers"@ != "APIPwd"@,
        "MoveMembers"@ != "Name"@,
        "MoveMembers"@ != "ReleaseLabel"@,
        "MoveMembers"@ != "Items"@,
        "DeadCodeInsertion"@ != "APIKey"@,
        "DeadCodeInsertion"@ != "APIPwd"@,
        "DeadCodeInsertion"@ != "Name"@,
        "DeadCodeInsertion"@ != "ReleaseLabel"@,
        "DeadCodeInsertion"@ != "Items"@,
        "APIKey"@ != "APIPwd"@,
        "APIKey"@ != "Name"@,
        "APIKey"@ != "ReleaseLabel"@,
        "APIKey"@ != "Items"@,
        "APIPwd"@ != "Name"@,
        "APIPwd"@ != "ReleaseLabel"@,
        "APIPwd"@ != "Items"@,
        "Name"@ != "ReleaseLabel"@,
        "Name"@ != "Items"@,
        "ReleaseLabel"@ != "Items"@,
        "standard"@ != "balanced"@,
        "standard"@ != "maximum"@,
        "balanced"@ != "maximum"@,
{
    reveal_strlit("Compress");
    reveal_strlit("EncodeStrings");
    reveal_strlit("EncryptStrings");
    reveal_strlit("MoveStringsIntoArray");
    reveal_strlit("NameMangling");
    reveal_strlit("DeepObfuscate");
    reveal_strlit("FlatTransform");
    reveal_strlit("CodeTransposition");
    reveal_strlit("ProtectMembers");
    reveal_strlit("RenameGlobals");
    reveal_strlit("MoveMembers");
    reveal_strlit("DeadCodeInsertion");
    reveal_strlit("APIKey");
    reveal_strlit("APIPwd");
    reveal_strlit("Name");
    reveal_strlit("ReleaseLabel");
    reveal_strlit("Items");
    reveal_strlit("standard");
    reveal_strlit("balanced");
    reveal_strlit("maximum");
    assert("Compress"@.len() == 8 && "Compress"@[0] == 'C' && "Compress"@[3] == 'p');
    assert("EncodeStrings"@.len() == 13 && "EncodeStrings"@[0] == 'E' && "EncodeStrings"@[3] == 'o');
    assert("EncryptStrings"@.len() == 14 && "EncryptStrings"@[0] == 'E' && "EncryptStrings"@[3] == 'r');
    assert("MoveStringsIntoArray"@.len() == 20 && "MoveStringsIntoArray"@[0] == 'M' && "MoveStringsIntoArray"@[3] == 'e');
    assert("NameMangling"@.len() == 12 && "NameMangling"@[0] == 'N' && "NameMangling"@[3] == 'e');
    assert("DeepObfuscate"@.len() == 13 && "DeepObfuscate"@[0] == 'D' && "DeepObfuscate"@[3] == 'p');
    assert("FlatTransform"@.len() == 13 && "FlatTransform"@[0] == 'F' && "FlatTransform"@[3] == 't');
    assert("CodeTransposition"@.len() == 17 && "CodeTransposition"@[0] == 'C' && "CodeTransposition"@[3] == 'e');
    assert("ProtectMembers"@.len() == 14 && "ProtectMembers"@[0] == 'P' && "ProtectMembers"@[3] == 't');
    assert("RenameGlobals"@.len() == 13 && "RenameGlobals"@[0] == 'R' && "RenameGlobals"@[3] == 'a');
    assert("MoveMembers"@.len() == 11 && "MoveMembers"@[0] == 'M' && "MoveMembers"@[3] == 'e');
    assert("DeadCodeInsertion"@.len() == 17 && "DeadCodeInsertion"@[0] == 'D' && "DeadCodeInsertion"@[3] == 'd');
    assert("APIKey"@.len() == 6 && "APIKey"@[0] == 'A' && "APIKey"@[3] == 'K');
    assert("APIPwd"@.len() == 6 && "APIPwd"@[0] == 'A' && "APIPwd"@[3] == 'P');
    assert("Name"@.len() == 4 && "Name"@[0] == 'N' && "Name"@[3] == 'e');
    assert("ReleaseLabel"@.len() == 12 && "ReleaseLabel"@[0] == 'R' && "ReleaseLabel"@[3] == 'e');
    assert("Items"@.len() == 5 && "Items"@[0] == 'I' && "Items"@[3] == 'm');
    assert("standard"@.len() == 8 && "standard"@[0] == 's' && "standard"@[3] == 'n');
    assert("balanced"@.len() == 8 && "balanced"@[0] == 'b' && "balanced"@[3] == 'a');
    assert("maximum"@.len() == 7 && "maximum"@[0] == 'm' && "maximum"@[3] == 'i');
}

/// Every option of every preset is switched on.
pub proof fn law_presets_all_on()
    ensures
        forall|i: int, j: int|
            0 <= i < preset_table().len() && 0 <= j < preset_table()[i].1.len() ==> #[trigger] preset_table()[i].1[j].1,
{
    assert forall|j: int| 0 <= j < standard_options().len() implies #[trigger] standard_options()[j].1 by {}
    assert forall|j: int| 0 <= j < balanced_options().len() implies #[trigger] balanced_options()[j].1 by {}
    assert forall|j: int| 0 <= j < maximum_options().len() implies #[trigger] maximum_options()[j].1 by {}
    assert forall|i: int, j: int|
        0 <= i < preset_table().len() && 0 <= j < preset_table()[i].1.len() implies #[trigger] preset_table()[i].1[j].1 by {
        assert(preset_table()[i].1 == standard_options() || preset_table()[i].1 == balanced_options()
            || preset_table()[i].1 == maximum_options());
    }
}

proof fn lemma_lookup_on(opts: Seq<(Seq<char>, bool)>, k: Seq<char>)
    requires
        forall|j: int| 0 <= j < opts.len() ==> #[trigger] opts[j].1,
    ensures
        entry_lookup(opts, k) == if has_key(opts, k) {
            Some(true)
        } else {
            None::<bool>
        },
{
    lemma_key_position(opts, k);
}

/// The table finds each preset under its name, and nothing under any other
/// name.
pub proof fn law_preset_names(n: Seq<char>)
    ensures
        preset_options("standard"@) == Some(standard_options()),
        preset_options("balanced"@) == Some(balanced_options()),
        preset_options("maximum"@) == Some(maximum_options()),
        n != "standard"@ && n != "balanced"@ && n != "maximum"@ ==> preset_options(n) is None,
{
    lemma_names_distinct();
    let t = preset_table();
    assert(t[0] == ("standard"@, standard_options()));
    assert(t[1] == ("balanced"@, balanced_options()));
    assert(t[2] == ("maximum"@, maximum_options()));
    lemma_key_position(t, "standard"@);
    lemma_key_position(t, "balanced"@);
    assert(t[0].0 == "standard"@);
    assert(t[1].0 == "balanced"@);
    assert(has_key(t, "standard"@));
    assert(has_key(t, "balanced"@));
    let i0 = crate::strmap::key_position(t, "standard"@)->0;
    assert(i0 == 0) by {
        if i0 == 1 {
            assert(t[1].0 == "balanced"@);
        } else if i0 == 2 {
            assert(t[2].0 == "maximum"@);
        }
    }
    let i1 = crate::strmap::key_position(t, "balanced"@)->0;
    assert(i1 == 1) by {
        if i1 == 0 {
            assert(t[2].0 != "balanced"@);
        } else if i1 == 2 {
            assert(t[2].0 == "maximum"@);
        }
    }
    lemma_key_position(t, "maximum"@);
    lemma_key_position(t, n);
}

/// Which options each preset sets: every option named here is switched on
/// in the presets listed for it and absent from the others.
pub proof fn law_preset_contents()
    ensures
        entry_lookup(preset_options("standard"@)->0, "Compress"@) == Some(true),
        entry_lookup(preset_options("standard"@)->0, "EncodeStrings"@) == Some(true),
        entry_lookup(preset_options("standard"@)->0, "EncryptStrings"@) == None::<bool>,
        entry_lookup(preset_options("standard"@)->0, "MoveStringsIntoArray"@) == Some(true),
        entry_lookup(preset_options("standard"@)->0, "NameMangling"@) == Some(true),
        entry_lookup(preset_options("standard"@)->0, "DeepObfuscate"@) == None::<bool>,
        entry_lookup(preset_options("standard"@)->0, "FlatTransform"@) == None::<bool>,
        entry_lookup(preset_options("standard"@)->0, "CodeTransposition"@) == None::<bool>,
        entry_lookup(preset_options("standard"@)->0, "ProtectMembers"@) == None::<bool>,
        entry_lookup(preset_options("standard"@)->0, "RenameGlobals"@) == None::<bool>,
        entry_lookup(preset_options("standard"@)->0, "MoveMembers"@) == None::<bool>,
        entry_lookup(preset_options("standard"@)->0, "DeadCodeInsertion"@) == None::<bool>,
        entry_lookup(preset_options("balanced"@)->0, "Compress"@) == Some(true),
        entry_lookup(preset_options("balanced"@)->0, "EncodeStrings"@) == Some(true),
        entry_lookup(preset_options("balanced"@)->0, "EncryptStrings"@) == Some(true),
        entry_lookup(preset_options("balanced"@)->0, "MoveStringsIntoArray"@) == Some(true),
        entry_lookup(preset_options("balanced"@)->0, "NameMangling"@) == Some(true),
        entry_lookup(preset_options("balanced"@)->0, "DeepObfuscate"@) == Some(true),
        entry_lookup(preset_options("balanced"@)->0, "FlatTransform"@) == Some(true),
        entry_lookup(preset_options("balanced"@)->0, "CodeTransposition"@) == Some(true),
        entry_lookup(preset_options("balanced"@)->0, "ProtectMembers"@) == None::<bool>,
        entry_lookup(preset_options("balanced"@)->0, "RenameGlobals"@) == None::<bool>,
        entry_lookup(preset_options("balanced"@)->0, "MoveMembers"@) == None::<bool>,
        entry_lookup(preset_options("balanced"@)->0, "DeadCodeInsertion"@) == None::<bool>,
        entry_lookup(preset_options("maximum"@)->0, "Compress"@) == Some(true),
        entry_lookup(preset_options("maximum"@)->0, "EncodeStrings"@) == Some(true),
        entry_lookup(preset_options("maximum"@)->0, "EncryptStrings"@) == Some(true),
        entry_lookup(preset_options("maximum"@)->0, "MoveStringsIntoArray"@) == Some(true),
        entry_lookup(preset_options("maximum"@)->0, "NameMangling"@) == Some(true),
        entry_lookup(preset_options("maximum"@)->0, "DeepObfuscate"@) == Some(true),
        entry_lookup(preset_options("maximum"@)->0, "FlatTransform"@) == Some(true),
        entry_lookup(preset_options("maximum"@)->0, "CodeTransposition"@) == Some(true),
        entry_lookup(preset_options("maximum"@)->0, "ProtectMembers"@) == Some(true),
        entry_lookup(preset_options("maximum"@)->0, "RenameGlobals"@) == Some(true),
        entry_lookup(preset_options("maximum"@)->0, "MoveMembers"@) == Some(true),
        entry_lookup(preset_options("maximum"@)->0, "DeadCodeInsertion"@) == Some(true),
{
    lemma_names_distinct();
    law_preset_names(Seq::empty());
    law_presets_all_on();
    let standard = standard_options();
    assert forall|j: int| 0 <= j < standard.len() implies #[trigger] standard[j].1 by {}
    assert(standard[0].0 == "Compress"@);
    assert(standard[1].0 == "EncodeStrings"@);
    assert(standard[2].0 == "MoveStringsIntoArray"@);
    assert(standard[3].0 == "NameMangling"@);
    lemma_lookup_on(standard, "Compress"@);
    lemma_lookup_on(standard, "EncodeStrings"@);
    lemma_lookup_on(standard, "EncryptStrings"@);
    lemma_lookup_on(standard, "MoveStringsIntoArray"@);
    lemma_lookup_on(standard, "NameMangling"@);
    lemma_lookup_on(standard, "DeepObfuscate"@);
    lemma_lookup_on(standard, "FlatTransform"@);
    lemma_lookup_on(standard, "CodeTransposition"@);
    lemma_lookup_on(standard, "ProtectMembers"@);
    lemma_lookup_on(standard, "RenameGlobals"@);
    lemma_lookup_on(standard, "MoveMembers"@);
    lemma_lookup_on(standard, "DeadCodeInsertion"@);
    let balanced = balanced_options();
    assert forall|j: int| 0 <= j < balanced.len() implies #[trigger] balanced[j].1 by {}
    assert(balanced[0].0 == "Compress"@);
    assert(balanced[1].0 == "EncodeStrings"@);
    assert(balanced[2].0 == "EncryptStrings"@);
    assert(balanced[3].0 == "MoveStringsIntoArray"@);
    assert(balanced[4].0 == "NameMangling"@);
    assert(balanced[5].0 == "DeepObfuscate"@);
    assert(balanced[6].0 == "FlatTransform"@);
    assert(balanced[7].0 == "CodeTransposition"@);
    lemma_lookup_on(balanced, "Compress"@);
    lemma_lookup_on(balanced, "EncodeStrings"@);
    lemma_lookup_on(balanced, "EncryptStrings"@);
    lemma_lookup_on(balanced, "MoveStringsIntoArray"@);
    lemma_lookup_on(balanced, "NameMangling"@);
    lemma_lookup_on(balanced, "DeepObfuscate"@);
    lemma_lookup_on(balanced, "FlatTransform"@);
    lemma_lookup_on(balanced, "CodeTransposition"@);
    lemma_lookup_on(balanced, "ProtectMembers"@);
    lemma_lookup_on(balanced, "RenameGlobals"@);
    lemma_lookup_on(balanced, "MoveMembers"@);
    lemma_lookup_on(balanced, "DeadCodeInsertion"@);
    let maximum = maximum_options();
    assert forall|j: int| 0 <= j < maximum.len() implies #[trigger] maximum[j].1 by {}
    assert(maximum[0].0 == "Compress"@);
    assert(maximum[1].0 == "EncodeStrings"@);
    assert(maximum[2].0 == "EncryptStrings"@);
    assert(maximum[3].0 == "MoveStringsIntoArray"@);
    assert(maximum[4].0 == "NameMangling"@);
    assert(maximum[5].0 == "DeepObfuscate"@);
    assert(maximum[6].0 == "FlatTransform"@);
    assert(maximum[7].0 == "CodeTransposition"@);
    assert(maximum[8].0 == "ProtectMembers"@);
    assert(maximum[9].0 == "RenameGlobals"@);
    assert(maximum[10].0 == "MoveMembers"@);
    assert(maximum[11].0 == "DeadCodeInsertion"@);
    lemma_lookup_on(maximum, "Compress"@);
    lemma_lookup_on(maximum, "EncodeStrings"@);
    lemma_lookup_on(maximum, "EncryptStrings"@);
    lemma_lookup_on(maximum, "MoveStringsIntoArray"@);
    lemma_lookup_on(maximum, "NameMangling"@);
    lemma_lookup_on(maximum, "DeepObfuscate"@);
    lemma_lookup_on(maximum, "FlatTransform"@);
    lemma_lookup_on(maximum, "CodeTransposition"@);
    lemma_lookup_on(maximum, "ProtectMembers"@);
    lemma_lookup_on(maximum, "RenameGlobals"@);
    lemma_lookup_on(maximum, "MoveMembers"@);
    lemma_lookup_on(maximum, "DeadCodeInsertion"@);
}

/// A request's preset is the table entry named by its lower-case name, and
/// "balanced" when it names none.
pub proof fn law_preset_by_lower_name(p: Seq<char>)
    ensures
        all_ascii(p) ==> preset_options(preset_key(Some(p))) == entry_lookup(
            preset_table(),
            p.map_values(|c: char| ascii_lower(c)),
        ),
        preset_options(preset_key(None)) == entry_lookup(preset_table(), "balanced"@),
{
}

/// Whether a request names the preset `name` (ASCII, in any letter case).
pub open spec fn names_preset(req: ProtectRequest, name: Seq<char>) -> bool {
    match req.preset {
        Some(p) => all_ascii(p@) && p@.map_values(|c: char| ascii_lower(c)) == name,
        None => name == "balanced"@,
    }
}

/// A request that names no known preset, in any letter case, fails with the
/// name as given once its credentials and files are in order.
pub proof fn law_unknown_preset(req: ProtectRequest, env: EnvCredentials)
    requires
        request_key(req, env).len() > 0,
        request_password(req, env).len() > 0,
        req.files@.len() > 0,
        req.preset is Some,
        all_ascii(req.preset->0@),
        !names_preset(req, "standard"@),
        !names_preset(req, "balanced"@),
        !names_preset(req, "maximum"@),
    ensures
        prepare_outcome(req, env) == Err::<(Seq<char>, JsonView, u64), ErrorView>(
            ErrorView::UnknownPreset(req.preset->0@),
        ),
{
    law_preset_names(req.preset->0@.map_values(|c: char| ascii_lower(c)));
}

/// A request that names the "standard" preset sends exactly its options as
/// true, apart from those an override names.
pub proof fn law_standard_sent(req: ProtectRequest, env: EnvCredentials)
    requires
        prepare_outcome(req, env) is Ok,
        names_preset(req, "standard"@),
    ensures
        !has_key(req.options@, "Compress"@) ==> sent_body(req, env).get("Compress"@) == Some(JsonView::Bool(true)),
        !has_key(req.options@, "EncodeStrings"@) ==> sent_body(req, env).get("EncodeStrings"@) == Some(JsonView::Bool(true)),
        !has_key(req.options@, "EncryptStrings"@) ==> sent_body(req, env).get("EncryptStrings"@) == None::<JsonView>,
        !has_key(req.options@, "MoveStringsIntoArray"@) ==> sent_body(req, env).get("MoveStringsIntoArray"@) == Some(JsonView::Bool(true)),
        !has_key(req.options@, "NameMangling"@) ==> sent_body(req, env).get("NameMangling"@) == Some(JsonView::Bool(true)),
        !has_key(req.options@, "DeepObfuscate"@) ==> sent_body(req, env).get("DeepObfuscate"@) == None::<JsonView>,
        !has_key(req.options@, "FlatTransform"@) ==> sent_body(req, env).get("FlatTransform"@) == None::<JsonView>,
        !has_key(req.options@, "CodeTransposition"@) ==> sent_body(req, env).get("CodeTransposition"@) == None::<JsonView>,
        !has_key(req.options@, "ProtectMembers"@) ==> sent_body(req, env).get("ProtectMembers"@) == None::<JsonView>,
        !has_key(req.options@, "RenameGlobals"@) ==> sent_body(req, env).get("RenameGlobals"@) == None::<JsonView>,
        !has_key(req.options@, "MoveMembers"@) ==> sent_body(req, env).get("MoveMembers"@) == None::<JsonView>,
        !has_key(req.options@, "DeadCodeInsertion"@) ==> sent_body(req, env).get("DeadCodeInsertion"@) == None::<JsonView>,
{
    lemma_names_distinct();
    law_preset_contents();
    law_preset_names(Seq::empty());
    assert(used_preset(req) == standard_options());
    if !has_key(req.options@, "Compress"@) {
        lemma_preset_body_key(req, env, "Compress"@);
    }
    if !has_key(req.options@, "EncodeStrings"@) {
        lemma_preset_body_key(req, env, "EncodeStrings"@);
    }
    if !has_key(req.options@, "EncryptStrings"@) {
        lemma_preset_body_key(req, env, "EncryptStrings"@);
    }
    if !has_key(req.options@, "MoveStringsIntoArray"@) {
        lemma_preset_body_key(req, env, "MoveStringsIntoArray"@);
    }
    if !has_key(req.options@, "NameMangling"@) {
        lemma_preset_body_key(req, env, "NameMangling"@);
    }
    if !has_key(req.options@, "DeepObfuscate"@) {
        lemma_preset_body_key(req, env, "DeepObfuscate"@);
    }
    if !has_key(req.options@, "FlatTransform"@) {
        lemma_preset_body_key(req, env, "FlatTransform"@);
    }
    if !has_key(req.options@, "CodeTransposition"@) {
        lemma_preset_body_key(req, env, "CodeTransposition"@);
    }
    if !has_key(req.options@, "ProtectMembers"@) {
        lemma_preset_body_key(req, env, "ProtectMembers"@);
    }
    if !has_key(req.options@, "RenameGlobals"@) {
        lemma_preset_body_key(req, env, "RenameGlobals"@);
    }
    if !has_key(req.options@, "MoveMembers"@) {
        lemma_preset_body_key(req, env, "MoveMembers"@);
    }
    if !has_key(req.options@, "DeadCodeInsertion"@) {
        lemma_preset_body_key(req, env, "DeadCodeInsertion"@);
    }
}

/// A request that names the "balanced" preset sends exactly its options as
/// true, apart from those an override names.
pub proof fn law_balanced_sent(req: ProtectRequest, env: EnvCredentials)
    requires
        prepare_outcome(req, env) is Ok,
        names_preset(req, "balanced"@),
    ensures
        !has_key(req.options@, "Compress"@) ==> sent_body(req, env).get("Compress"@) == Some(JsonView::Bool(true)),
        !has_key(req.options@, "EncodeStrings"@) ==> sent_body(req, env).get("EncodeStrings"@) == Some(JsonView::Bool(true)),
        !has_key(req.options@, "EncryptStrings"@) ==> sent_body(req, env).get("EncryptStrings"@) == Some(JsonView::Bool(true)),
        !has_key(req.options@, "MoveStringsIntoArray"@) ==> sent_body(req, env).get("MoveStringsIntoArray"@) == Some(JsonView::Bool(true)),
        !has_key(req.options@, "NameMangling"@) ==> sent_body(req, env).get("NameMangling"@) == Some(JsonView::Bool(true)),
        !has_key(req.options@, "DeepObfuscate"@) ==> sent_body(req, env).get("DeepObfuscate"@) == Some(JsonView::Bool(true)),
        !has_key(req.options@, "FlatTransform"@) ==> sent_body(req, env).get("FlatTransform"@) == Some(JsonView::Bool(true)),
        !has_key(req.options@, "CodeTransposition"@) ==> sent_body(req, env).get("CodeTransposition"@) == Some(JsonView::Bool(true)),
        !has_key(req.options@, "ProtectMembers"@) ==> sent_body(req, env).get("ProtectMembers"@) == None::<JsonView>,
        !has_key(req.options@, "RenameGlobals"@) ==> sent_body(req, env).get("RenameGlobals"@) == None::<JsonView>,
        !has_key(req.options@, "MoveMembers"@) ==> sent_body(req, env).get("MoveMembers"@) == None::<JsonView>,
        !has_key(req.options@, "DeadCodeInsertion"@) ==> sent_body(req, env).get("DeadCodeInsertion"@) == None::<JsonView>,
{
    lemma_names_distinct();
    law_preset_contents();
    law_preset_names(Seq::empty());
    assert(used_preset(req) == balanced_options());
    if !has_key(req.options@, "Compress"@) {
        lemma_preset_body_key(req, env, "Compress"@);
    }
    if !has_key(req.options@, "EncodeStrings"@) {
        lemma_preset_body_key(req, env, "EncodeStrings"@);
    }
    if !has_key(req.options@, "EncryptStrings"@) {
        lemma_preset_body_key(req, env, "EncryptStrings"@);
    }
    if !has_key(req.options@, "MoveStringsIntoArray"@) {
        lemma_preset_body_key(req, env, "MoveStringsIntoArray"@);
    }
    if !has_key(req.options@, "NameMangling"@) {
        lemma_preset_body_key(req, env, "NameMangling"@);
    }
    if !has_key(req.options@, "DeepObfuscate"@) {
        lemma_preset_body_key(req, env, "DeepObfuscate"@);
    }
    if !has_key(req.options@, "FlatTransform"@) {
        lemma_preset_body_key(req, env, "FlatTransform"@);
    }
    if !has_key(req.options@, "CodeTransposition"@) {
        lemma_preset_body_key(req, env, "CodeTransposition"@);
    }
    if !has_key(req.options@, "ProtectMembers"@) {
        lemma_preset_body_key(req, env, "ProtectMembers"@);
    }
    if !has_key(req.options@, "RenameGlobals"@) {
        lemma_preset_body_key(req, env, "RenameGlobals"@);
    }
    if !has_key(req.options@, "MoveMembers"@) {
        lemma_preset_body_key(req, env, "MoveMembers"@);
    }
    if !has_key(req.options@, "DeadCodeInsertion"@) {
        lemma_preset_body_key(req, env, "DeadCodeInsertion"@);
    }
}

/// A request that names the "maximum" preset sends exactly its options as
/// true, apart from those an override names.
pub proof fn law_maximum_sent(req: ProtectRequest, env: EnvCredentials)
    requires
        prepare_outcome(req, env) is Ok,
        names_preset(req, "maximum"@),
    ensures
        !has_key(req.options@, "Compress"@) ==> sent_body(req, env).get("Compress"@) == Some(JsonView::Bool(true)),
        !has_key(req.options@, "EncodeStrings"@) ==> sent_body(req, env).get("EncodeStrings"@) == Some(JsonView::Bool(true)),
        !has_key(req.options@, "EncryptStrings"@) ==> sent_body(req, env).get("EncryptStrings"@) == Some(JsonView::Bool(true)),
        !has_key(req.options@, "MoveStringsIntoArray"@) ==> sent_body(req, env).get("MoveStringsIntoArray"@) == Some(JsonView::Bool(true)),
        !has_key(req.options@, "NameMangling"@) ==> sent_body(req, env).get("NameMangling"@) == Some(JsonView::Bool(true)),
        !has_key(req.options@, "DeepObfuscate"@) ==> sent_body(req, env).get("DeepObfuscate"@) == Some(JsonView::Bool(true)),
        !has_key(req.options@, "FlatTransform"@) ==> sent_body(req, env).get("FlatTransform"@) == Some(JsonView::Bool(true)),
        !has_key(req.options@, "CodeTransposition"@) ==> sent_body(req, env).get("CodeTransposition"@) == Some(JsonView::Bool(true)),
        !has_key(req.options@, "ProtectMembers"@) ==> sent_body(req, env).get("ProtectMembers"@) == Some(JsonView::Bool(true)),
        !has_key(req.options@, "RenameGlobals"@) ==> sent_body(req, env).get("RenameGlobals"@) == Some(JsonView::Bool(true)),
        !has_key(req.options@, "MoveMembers"@) ==> sent_body(req, env).get("MoveMembers"@) == Some(JsonView::Bool(true)),
        !has_key(req.options@, "DeadCodeInsertion"@) ==> sent_body(req, env).get("DeadCodeInsertion"@) == Some(JsonView::Bool(true)),
{
    lemma_names_distinct();
    law_preset_contents();
    law_preset_names(Seq::empty());
    assert(used_preset(req) == maximum_options());
    if !has_key(req.options@, "Compress"@) {
        lemma_preset_body_key(req, env, "Compress"@);
    }
    if !has_key(req.options@, "EncodeStrings"@) {
        lemma_preset_body_key(req, env, "EncodeStrings"@);
    }
    if !has_key(req.options@, "EncryptStrings"@) {
        lemma_preset_body_key(req, env, "EncryptStrings"@);
    }
    if !has_key(req.options@, "MoveStringsIntoArray"@) {
        lemma_preset_body_key(req, env, "MoveStringsIntoArray"@);
    }
    if !has_key(req.options@, "NameMangling"@) {
        lemma_preset_body_key(req, env, "NameMangling"@);
    }
    if !has_key(req.options@, "DeepObfuscate"@) {
        lemma_preset_body_key(req, env, "DeepObfuscate"@);
    }
    if !has_key(req.options@, "FlatTransform"@) {
        lemma_preset_body_key(req, env, "FlatTransform"@);
    }
    if !has_key(req.options@, "CodeTransposition"@) {
        lemma_preset_body_key(req, env, "CodeTransposition"@);
    }
    if !has_key(req.options@, "ProtectMembers"@) {
        lemma_preset_body_key(req, env, "ProtectMembers"@);
    }
    if !has_key(req.options@, "RenameGlobals"@) {
        lemma_preset_body_key(req, env, "RenameGlobals"@);
    }
    if !has_key(req.options@, "MoveMembers"@) {
        lemma_preset_body_key(req, env, "MoveMembers"@);
    }
    if !has_key(req.options@, "DeadCodeInsertion"@) {
        lemma_preset_body_key(req, env, "DeadCodeInsertion"@);
    }
}

} // verus!
