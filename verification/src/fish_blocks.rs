//! The synthesizer's block library: the built-in block templates and the
//! creation of block instances from them.

use vstd::prelude::*;

use vstd::string::StringExecFns;

use crate::text::str_eq;

verus! {

/// What role a block plays in the signal chain.
#[derive(Clone, Copy, Debug, PartialEq, Eq, Structural)]
pub enum FishBlockCategory {
    Meta,
    Generator,
    Modulator,
    Effect,
    Filter,
    Envelope,
    Utility,
}

impl Default for FishBlockCategory {
    fn default() -> (r: FishBlockCategory)
        ensures
            r == FishBlockCategory::Utility,
    {
        FishBlockCategory::Utility
    }
}

/// A stored parameter of a block template.
#[derive(Clone, Copy, Debug, PartialEq, Eq, Structural)]
pub struct FishParamStorage {
    pub id: u64,
    pub value: i64,
}

/// An input port of a block template.
#[derive(Clone, Copy, Debug, PartialEq, Eq, Structural)]
pub struct FishInputPort {
    pub id: u64,
}

/// An output port of a block template.
#[derive(Clone, Copy, Debug, PartialEq, Eq, Structural)]
pub struct FishOutputPort {
    pub id: u64,
}

/// A reusable description of a block kind.
#[derive(Clone, Debug)]
pub struct FishBlockTemplate {
    pub id: u64,
    pub name: String,
    pub displayname: String,
    pub description: String,
    pub creator: String,
    pub path: String,
    pub category: FishBlockCategory,
    pub parameters: Vec<FishParamStorage>,
    pub inputs: Vec<FishInputPort>,
    pub outputs: Vec<FishOutputPort>,
}

/// One block instance in a patch.
#[derive(Clone, Copy, Debug, PartialEq, Eq, Structural)]
pub struct FishBlock {
    pub id: u64,
    pub library_id: u64,
    pub category: FishBlockCategory,
    pub x: i32,
    pub y: i32,
}

impl Default for FishBlock {
    fn default() -> (r: FishBlock)
        ensures
            r == (FishBlock {
                id: 0,
                library_id: 0,
                category: FishBlockCategory::Utility,
                x: 0,
                y: 0,
            }),
    {
        FishBlock { id: 0, library_id: 0, category: FishBlockCategory::Utility, x: 0, y: 0 }
    }
}

/// The library of available block templates, with a null template answered
/// for unknown names.
#[derive(Clone, Debug)]
pub struct FishBlockLibrary {
    pub allblocks: Vec<FishBlockTemplate>,
    pub nulltemplate: FishBlockTemplate,
}

/// A template with the given category, name and path, an id of zero, the
/// display name equal to the name, and no parameters or ports.
pub open spec fn is_generic_template(
    t: FishBlockTemplate,
    category: FishBlockCategory,
    name: Seq<char>,
    description: Seq<char>,
    path: Seq<char>,
) -> bool {
    &&& t.id == 0
    &&& t.category == category
    &&& t.name@ == name
    &&& t.displayname@ == name
    &&& t.description@ == description
    &&& t.path@ == path
    &&& t.parameters@.len() == 0
    &&& t.inputs@.len() == 0
    &&& t.outputs@.len() == 0
}

/// Index of the first template in `s` named `name`; `s.len()` if none is.
pub open spec fn template_index(s: Seq<FishBlockTemplate>, name: Seq<char>) -> int
    decreases s.len(),
{
    if s.len() == 0 {
        0
    } else if s[0].name@ == name {
        0
    } else {
        1 + template_index(s.skip(1), name)
    }
}

pub proof fn lemma_template_index(s: Seq<FishBlockTemplate>, name: Seq<char>)
    ensures
        0 <= template_index(s, name) <= s.len(),
        template_index(s, name) < s.len() ==> s[template_index(s, name)].name@ == name,
        forall|j: int| 0 <= j < template_index(s, name) ==> s[j].name@ != name,
    decreases s.len(),
{
    if s.len() != 0 && s[0].name@ != name {
        lemma_template_index(s.skip(1), name);
        assert forall|j: int| 0 <= j < template_index(s, name) implies s[j].name@ != name by {
            if j > 0 {
                assert(s.skip(1)[j - 1] == s[j]);
            }
        }
    }
}

impl FishBlockLibrary {
    /// Fill the library with one generic template per category and set up
    /// the null template answered for unknown names. Existing entries are
    /// kept; the six stock templates are appended after them. The built-in
    /// templates ignore the base path.
    #[allow(unused_variables)]
    pub fn populate_library(&mut self, basepath: &str)
        ensures
            final(self).allblocks@.len() == old(self).allblocks@.len() + 6,
            forall|i: int|
                0 <= i < old(self).allblocks@.len() ==> final(self).allblocks@[i] == old(
                    self,
                ).allblocks@[i],
            is_generic_template(
                final(self).nulltemplate,
                FishBlockCategory::Meta,
                "Unknown"@,
                "This is the empty null block. Is something missing in your library?"@,
                "/null"@,
            ),
            is_generic_template(
                final(self).allblocks@[old(self).allblocks@.len() as int],
                FishBlockCategory::Generator,
                "Oscillator"@,
                "Generic osc!"@,
                "/oscillator"@,
            ),
            is_generic_template(
                final(self).allblocks@[(old(self).allblocks@.len() + 1) as int],
                FishBlockCategory::Effect,
                "Effect"@,
                "Generic effect!"@,
                "/effect"@,
            ),
            is_generic_template(
                final(self).allblocks@[(old(self).allblocks@.len() + 2) as int],
                FishBlockCategory::Filter,
                "Filter"@,
                "Generic filter!"@,
                "/filter"@,
            ),
            is_generic_template(
                final(self).allblocks@[(old(self).allblocks@.len() + 3) as int],
                FishBlockCategory::Meta,
                "Meta"@,
                "Generic meta!"@,
                "/meta"@,
            ),
            is_generic_template(
                final(self).allblocks@[(old(self).allblocks@.len() + 4) as int],
                FishBlockCategory::Utility,
                "Utility"@,
                "Generic utility!"@,
                "/util"@,
            ),
            is_generic_template(
                final(self).allblocks@[(old(self).allblocks@.len() + 5) as int],
                FishBlockCategory::Envelope,
                "Envelope"@,
                "Generic envelope!"@,
                "/envelope"@,
            ),
    {
        self.nulltemplate = FishBlockTemplate {
            category: FishBlockCategory::Meta,
            outputs: Vec::new(),
            inputs: Vec::new(),
            parameters: Vec::new(),
            id: 0,
            name: String::from_str("Unknown"),
            displayname: String::from_str("Unknown"),
            description: String::from_str(
                "This is the empty null block. Is something missing in your library?",
            ),
            creator: String::from_str("Stijn Haring-Kuipers"),
            path: String::from_str("/null"),
        };
        self.allblocks.push(
            FishBlockTemplate {
                category: FishBlockCategory::Generator,
                outputs: Vec::new(),
                inputs: Vec::new(),
                parameters: Vec::new(),
                id: 0,
                name: String::from_str("Oscillator"),
                displayname: String::from_str("Oscillator"),
                description: String::from_str("Generic osc!"),
                creator: String::from_str("Stijn Haring-Kuipers"),
                path: String::from_str("/oscillator"),
            },
        );
        self.allblocks.push(
            FishBlockTemplate {
                category: FishBlockCategory::Effect,
                outputs: Vec::new(),
                inputs: Vec::new(),
                parameters: Vec::new(),
                id: 0,
                name: String::from_str("Effect"),
                displayname: String::from_str("Effect"),
                description: String::from_str("Generic effect!"),
                creator: String::from_str("Stijn Haring-Kuipers"),
                path: String::from_str("/effect"),
            },
        );
        self.allblocks.push(
            FishBlockTemplate {
                category: FishBlockCategory::Filter,
                outputs: Vec::new(),
                inputs: Vec::new(),
                parameters: Vec::new(),
                id: 0,
                name: String::from_str("Filter"),
                displayname: String::from_str("Filter"),
                description: String::from_str("Generic filter!"),
                creator: String::from_str("Stijn Haring-Kuipers"),
                path: String::from_str("/filter"),
            },
        );
        self.allblocks.push(
            FishBlockTemplate {
                category: FishBlockCategory::Meta,
                outputs: Vec::new(),
                inputs: Vec::new(),
                parameters: Vec::new(),
                id: 0,
                name: String::from_str("Meta"),
                displayname: String::from_str("Meta"),
                description: String::from_str("Generic meta!"),
                creator: String::from_str("Stijn Haring-Kuipers"),
                path: String::from_str("/meta"),
            },
        );
        self.allblocks.push(
            FishBlockTemplate {
                category: FishBlockCategory::Utility,
                outputs: Vec::new(),
                inputs: Vec::new(),
                parameters: Vec::new(),
                id: 0,
                name: String::from_str("Utility"),
                displayname: String::from_str("Utility"),
                description: String::from_str("Generic utility!"),
                creator: String::from_str("Stijn Haring-Kuipers"),
                path: String::from_str("/util"),
            },
        );
        self.allblocks.push(
            FishBlockTemplate {
                category: FishBlockCategory::Envelope,
                outputs: Vec::new(),
                inputs: Vec::new(),
                parameters: Vec::new(),
                id: 0,
                name: String::from_str("Envelope"),
                displayname: String::from_str("Envelope"),
                description: String::from_str("Generic envelope!"),
                creator: String::from_str("Stijn Haring-Kuipers"),
                path: String::from_str("/envelope"),
            },
        );
    }

    /// The first template named `name`, or the null template if none is.
    pub fn find_template(&self, name: &str) -> (r: &FishBlockTemplate)
        ensures
            ({
                let idx = template_index(self.allblocks@, name@);
                if idx < self.allblocks@.len() {
                    *r == self.allblocks@[idx]
                } else {
                    *r == self.nulltemplate
                }
            }),
    {
        let mut i: usize = 0;
        while i < self.allblocks.len()
            invariant
                i <= self.allblocks@.len(),
                forall|j: int| 0 <= j < i ==> (#[trigger] self.allblocks@[j]).name@ != name@,
            decreases self.allblocks@.len() - i,
        {
            if str_eq(self.allblocks[i].name.as_str(), name) {
                proof {
                    lemma_template_index(self.allblocks@, name@);
                    assert(template_index(self.allblocks@, name@) == i as int);
                }
                return &self.allblocks[i];
            }
            i += 1;
        }
        proof {
            lemma_template_index(self.allblocks@, name@);
        }
        &self.nulltemplate
    }

    /// A fresh block instance carrying the category and library id of the
    /// template named `name` (of the null template if none is), with all
    /// other fields at their defaults.
    pub fn create_instance_from_template(&self, name: &str) -> (r: FishBlock)
        ensures
            ({
                let idx = template_index(self.allblocks@, name@);
                let t = if idx < self.allblocks@.len() {
                    self.allblocks@[idx]
                } else {
                    self.nulltemplate
                };
                r == (FishBlock { id: 0, library_id: t.id, category: t.category, x: 0, y: 0 })
            }),
    {
        let t = self.find_template(name);
        let mut f = FishBlock::default();
        f.category = t.category;
        f.library_id = t.id;
        f
    }
}

} // verus!
