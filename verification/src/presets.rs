//! The three named option presets.
use vstd::prelude::*;
use vstd::string::*;

use crate::strmap::{entry_lookup, has_key, key_position, lemma_key_position};

verus! {

/// The options of the "standard" preset.
pub open spec fn standard_options() -> Seq<(Seq<char>, bool)> {
    seq![
        ("Compress"@, true),
        ("EncodeStrings"@, true),
        ("MoveStringsIntoArray"@, true),
        ("NameMangling"@, true),
    ]
}

/// The options of the "balanced" preset.
pub open spec fn balanced_options() -> Seq<(Seq<char>, bool)> {
    seq![
        ("Compress"@, true),
        ("EncodeStrings"@, true),
        ("EncryptStrings"@, true),
        ("MoveStringsIntoArray"@, true),
        ("NameMangling"@, true),
        ("DeepObfuscate"@, true),
        ("FlatTransform"@, true),
        ("CodeTransposition"@, true),
    ]
}

/// The options of the "maximum" preset.
pub open spec fn maximum_options() -> Seq<(Seq<char>, bool)> {
    seq![
        ("Compress"@, true),
        ("EncodeStrings"@, true),
        ("EncryptStrings"@, true),
        ("MoveStringsIntoArray"@, true),
        ("NameMangling"@, true),
        ("DeepObfuscate"@, true),
        ("FlatTransform"@, true),
        ("CodeTransposition"@, true),
        ("ProtectMembers"@, true),
        ("RenameGlobals"@, true),
        ("MoveMembers"@, true),
        ("DeadCodeInsertion"@, true),
    ]
}

/// The preset table: each preset's name with its options.
pub open spec fn preset_table() -> Seq<(Seq<char>, Seq<(Seq<char>, bool)>)> {
    seq![
        ("standard"@, standard_options()),
        ("balanced"@, balanced_options()),
        ("maximum"@, maximum_options()),
    ]
}

/// The options of the preset called `name`, if there is one.
pub open spec fn preset_options(name: Seq<char>) -> Option<Seq<(Seq<char>, bool)>> {
    entry_lookup(preset_table(), name)
}

/// A named set of option values.
pub struct Preset {
    name: &'static str,
    options: Vec<(&'static str, bool)>,
}

impl Preset {
    /// The name and the options, in table order.
    pub closed spec fn view(&self) -> (Seq<char>, Seq<(Seq<char>, bool)>) {
        (self.name@, self.options@.map_values(|o: (&'static str, bool)| (o.0@, o.1)))
    }

    /// The preset's name.
    pub fn name(&self) -> (r: &'static str)
        ensures
            r@ == self@.0,
    {
        self.name
    }

    /// The preset's options with their values.
    pub fn options(&self) -> (r: &Vec<(&'static str, bool)>)
        ensures
            r@.map_values(|o: (&'static str, bool)| (o.0@, o.1)) == self@.1,
    {
        &self.options
    }

    /// The number of options the preset sets.
    pub fn len(&self) -> (n: usize)
        ensures
            n == self@.1.len(),
    {
        self.options.len()
    }

    /// The value the preset gives `option`, if it sets it.
    pub fn get(&self, option: &str) -> (r: Option<bool>)
        ensures
            r == entry_lookup(self@.1, option@),
    {
        let k = String::from_str(option);
        let ghost ov = self@.1;
        let mut i = self.options.len();
        assert(ov.take(i as int) =~= ov);
        while i > 0
            invariant
                i <= self.options@.len(),
                ov == self@.1,
                k@ == option@,
                key_position(ov, k@) == key_position(ov.take(i as int), k@),
            decreases i,
        {
            assert(ov.take(i as int).drop_last() =~= ov.take(i - 1));
            if String::from_str(self.options[i - 1].0) == k {
                assert(ov.take(i as int).last() == ov[i - 1]);
                return Some(self.options[i - 1].1);
            }
            i = i - 1;
        }
        None
    }
}

/// The table of named presets.
pub struct PresetTable {
    presets: Vec<Preset>,
}

impl PresetTable {
    /// Each preset's name with its options, in table order.
    pub closed spec fn view(&self) -> Seq<(Seq<char>, Seq<(Seq<char>, bool)>)> {
        self.presets@.map_values(|p: Preset| p@)
    }

    /// The number of presets.
    pub fn len(&self) -> (n: usize)
        ensures
            n == self@.len(),
    {
        self.presets.len()
    }

    /// The preset called `name`, if there is one.
    pub fn get(&self, name: &str) -> (r: Option<&Preset>)
        ensures
            match r {
                Some(p) => entry_lookup(self@, name@) == Some(p@.1) && p@.0 == name@,
                None => entry_lookup(self@, name@) is None,
            },
    {
        let k = String::from_str(name);
        let ghost tv = self@;
        proof {
            lemma_key_position(tv, k@);
        }
        let mut i = self.presets.len();
        assert(tv.take(i as int) =~= tv);
        while i > 0
            invariant
                i <= self.presets@.len(),
                tv == self@,
                k@ == name@,
                key_position(tv, k@) == key_position(tv.take(i as int), k@),
            decreases i,
        {
            assert(tv.take(i as int).drop_last() =~= tv.take(i - 1));
            if String::from_str(self.presets[i - 1].name) == k {
                assert(tv.take(i as int).last() == tv[i - 1]);
                return Some(&self.presets[i - 1]);
            }
            i = i - 1;
        }
        None
    }

    /// Whether the table has a preset called `name`.
    pub fn contains_key(&self, name: &str) -> (b: bool)
        ensures
            b == has_key(self@, name@),
    {
        proof {
            lemma_key_position(self@, name@);
        }
        self.get(name).is_some()
    }
}

fn preset_entry(name: &'static str, options: Vec<(&'static str, bool)>) -> (p: Preset)
    ensures
        p@ == (name@, options@.map_values(|o: (&'static str, bool)| (o.0@, o.1))),
{
    Preset { name, options }
}

/// The three named presets, shared by every client of the service.
pub fn presets() -> (t: PresetTable)
    ensures
        t@ == preset_table(),
{
    let standard = preset_entry(
        "standard",
        vec![
            ("Compress", true),
            ("EncodeStrings", true),
            ("MoveStringsIntoArray", true),
            ("NameMangling", true),
        ],
    );
    let balanced = preset_entry(
        "balanced",
        vec![
            ("Compress", true),
            ("EncodeStrings", true),
            ("EncryptStrings", true),
            ("MoveStringsIntoArray", true),
            ("NameMangling", true),
            ("DeepObfuscate", true),
            ("FlatTransform", true),
            ("CodeTransposition", true),
        ],
    );
    let maximum = preset_entry(
        "maximum",
        vec![
            ("Compress", true),
            ("EncodeStrings", true),
            ("EncryptStrings", true),
            ("MoveStringsIntoArray", true),
            ("NameMangling", true),
            ("DeepObfuscate", true),
            ("FlatTransform", true),
            ("CodeTransposition", true),
            ("ProtectMembers", true),
            ("RenameGlobals", true),
            ("MoveMembers", true),
            ("DeadCodeInsertion", true),
        ],
    );
    assert(standard@.1 =~= standard_options());
    assert(balanced@.1 =~= balanced_options());
    assert(maximum@.1 =~= maximum_options());
    let t = PresetTable { presets: vec![standard, balanced, maximum] };
    assert(t@ =~= preset_table());
    t
}

} // verus!
