//! The configured data sources.

use vstd::prelude::*;

use crate::source;
use crate::text::{split_at_commas, split_commas, text_is};

verus! {

#[verifier::external_type_specification]
#[verifier::external_body]
pub struct ExPathBuf(std::path::PathBuf);

/// A data source as configured.
pub struct Source {
    pub name: String,
    pub description: String,
    pub short: String,
    pub long: String,
    pub command: String,
    pub args: Vec<String>,
    /// Every other setting of the source, by key.
    pub rest: Vec<(String, String)>,
}

/// Settings that concern no single source.
pub struct General {
    pub database: std::path::PathBuf,
}

/// The whole configuration.
pub struct Config {
    general: General,
    sources: Vec<Source>,
}

/// Whether a configured source answers to `name`, by its short or long name.
pub open spec fn answers_to(s: Source, name: Seq<char>) -> bool {
    s.short@ == name || s.long@ == name
}

/// Whether some configured source answers to `name`.
pub open spec fn has_source(sources: Seq<Source>, name: Seq<char>) -> bool {
    exists|i: int| 0 <= i < sources.len() && #[trigger] answers_to(sources[i], name)
}

/// Whether `s` is the first configured source that answers to `name`, resolved.
pub open spec fn resolves(sources: Seq<Source>, name: Seq<char>, s: source::Source) -> bool {
    exists|i: int| {
        &&& 0 <= i < sources.len()
        &&& #[trigger] answers_to(sources[i], name)
        &&& forall|j: int| 0 <= j < i ==> !answers_to(#[trigger] sources[j], name)
        &&& s.spec_name() == sources[i].name@
        &&& s.spec_command() == sources[i].command@
        &&& s.spec_args() == sources[i].args@
    }
}

/// The message for a name that no source answers to.
pub open spec fn not_found(name: Seq<char>) -> Seq<char> {
    "Source "@ + name + " not found"@
}

impl Source {
    /// The line that lists the source: `name: short / long - description`.
    pub fn listing(&self) -> (r: String)
        ensures
            r@ == self.name@ + ": "@ + self.short@ + " / "@ + self.long@ + " - "@ + self.description@,
    {
        self.name.clone().concat(": ").concat(self.short.as_str()).concat(" / ").concat(self.long.as_str()).concat(
            " - ",
        ).concat(self.description.as_str())
    }
}

impl Config {
    pub closed spec fn spec_sources(&self) -> Seq<Source> {
        self.sources@
    }

    pub closed spec fn spec_general(&self) -> General {
        self.general
    }

    pub fn new(general: General, sources: Vec<Source>) -> (r: Config)
        ensures
            r.spec_general() == general,
            r.spec_sources() == sources@,
    {
        Config { general, sources }
    }

    pub fn general(&self) -> (r: &General)
        ensures
            *r == self.spec_general(),
    {
        &self.general
    }

    pub fn raw_sources(&self) -> (r: &Vec<Source>)
        ensures
            r@ == self.spec_sources(),
    {
        &self.sources
    }

    /// Every configured source, resolved, in the configured order.
    pub fn all_sources(&self) -> (r: Vec<source::Source>)
        ensures
            r@.len() == self.spec_sources().len(),
            forall|i: int| 0 <= i < r@.len() ==> {
                &&& (#[trigger] r@[i]).spec_name() == self.spec_sources()[i].name@
                &&& r@[i].spec_command() == self.spec_sources()[i].command@
                &&& r@[i].spec_args() == self.spec_sources()[i].args@
            },
    {
        let mut r: Vec<source::Source> = Vec::new();
        let mut i: usize = 0;
        while i < self.sources.len()
            invariant
                i <= self.sources@.len(),
                r@.len() == i,
                forall|k: int| 0 <= k < i ==> {
                    &&& (#[trigger] r@[k]).spec_name() == self.sources@[k].name@
                    &&& r@[k].spec_command() == self.sources@[k].command@
                    &&& r@[k].spec_args() == self.sources@[k].args@
                },
            decreases self.sources@.len() - i,
        {
            r.push(source::Source::from_config(&self.sources[i]));
            i = i + 1;
        }
        r
    }

    /// The first configured source whose short or long name is `name`.
    pub fn get_source(&self, name: &str) -> (r: Result<source::Source, String>)
        ensures
            r is Ok <==> has_source(self.spec_sources(), name@),
            r matches Ok(s) ==> resolves(self.spec_sources(), name@, s),
            r matches Err(m) ==> m@ == not_found(name@),
    {
        let mut i: usize = 0;
        while i < self.sources.len()
            invariant
                i <= self.sources@.len(),
                forall|j: int| 0 <= j < i ==> !answers_to(#[trigger] self.sources@[j], name@),
            decreases self.sources@.len() - i,
        {
            let s = &self.sources[i];
            if text_is(&s.short, name) || text_is(&s.long, name) {
                assert(answers_to(self.spec_sources()[i as int], name@));
                return Ok(source::Source::from_config(s));
            }
            i = i + 1;
        }
        assert forall|j: int| 0 <= j < self.spec_sources().len() implies !answers_to(#[trigger] self.spec_sources()[j], name@) by {
            assert(self.spec_sources()[j] == self.sources@[j]);
        }
        Err(String::from_str("Source ").concat(name).concat(" not found"))
    }
}

impl Config {
    /// The sources named in a comma-separated list, in the order of the list;
    /// the first name that no source answers to fails the whole list.
    pub fn select_sources(&self, names: &str) -> (r: Result<Vec<source::Source>, String>)
        ensures
            r is Ok <==> forall|k: int| 0 <= k < split_commas(names@).len() ==> has_source(
                self.spec_sources(),
                #[trigger] split_commas(names@)[k],
            ),
            r matches Ok(v) ==> v@.len() == split_commas(names@).len() && forall|k: int| 0 <= k < v@.len() ==> resolves(
                self.spec_sources(),
                split_commas(names@)[k],
                #[trigger] v@[k],
            ),
            r matches Err(m) ==> exists|k: int| {
                &&& 0 <= k < split_commas(names@).len()
                &&& !has_source(self.spec_sources(), #[trigger] split_commas(names@)[k])
                &&& forall|j: int| 0 <= j < k ==> has_source(self.spec_sources(), #[trigger] split_commas(names@)[j])
                &&& m@ == not_found(split_commas(names@)[k])
            },
    {
        let pieces = split_at_commas(names);
        let ghost wanted = split_commas(names@);
        assert(pieces@.len() == wanted.len()) by {
            assert(pieces@.map_values(|p: String| p@).len() == pieces@.len());
        }
        let mut found: Vec<source::Source> = Vec::new();
        let mut k: usize = 0;
        while k < pieces.len()
            invariant
                wanted == split_commas(names@),
                pieces@.map_values(|p: String| p@) == wanted,
                pieces@.len() == wanted.len(),
                k <= pieces@.len(),
                found@.len() == k,
                forall|j: int| 0 <= j < k ==> has_source(self.spec_sources(), #[trigger] wanted[j]),
                forall|j: int| 0 <= j < k ==> resolves(self.spec_sources(), wanted[j], #[trigger] found@[j]),
            decreases pieces@.len() - k,
        {
            assert(pieces@[k as int]@ == wanted[k as int]);
            match self.get_source(pieces[k].as_str()) {
                Ok(s) => found.push(s),
                Err(m) => {
                    assert(!has_source(self.spec_sources(), wanted[k as int]));
                    return Err(m);
                },
            }
            k = k + 1;
        }
        Ok(found)
    }
}

} // verus!
