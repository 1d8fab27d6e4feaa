//! Validated value objects: the identifier, the name, the category tags and
//! the record built from them.
//!
//! Each type offers a single fallible constructor from primitive input and a
//! lossless accessor back to the primitive form. The constructors are the one
//! gate where validation happens; every value that exists satisfies its
//! invariant (`wf`), and downstream code trusts that without re-checking.

use vstd::prelude::*;

verus! {

/// The reserved identifier that no record may carry.
pub open spec fn spec_reserved_number() -> u16 {
    0
}

/// A candidate identifier is valid exactly when it is not the reserved one.
pub open spec fn valid_number(n: u16) -> bool {
    n != spec_reserved_number()
}

/// A candidate name is valid exactly when it is non-empty; no trimming or
/// other normalization is applied, so a whitespace-only name is valid.
pub open spec fn valid_name(s: Seq<char>) -> bool {
    s.len() > 0
}

/// A candidate tag is valid exactly when it belongs to the fixed, closed
/// vocabulary of category tags.
pub open spec fn valid_tag(s: Seq<char>) -> bool {
    s == "Electric"@ || s == "Fire"@
}

/// A candidate tag list is valid exactly when it is non-empty and every
/// entry is drawn from the vocabulary. Duplicate tags are kept as given:
/// the list round-trips losslessly, order and repetitions included.
pub open spec fn valid_tags(ts: Seq<Seq<char>>) -> bool {
    &&& ts.len() > 0
    &&& forall|i: int| 0 <= i < ts.len() ==> valid_tag(#[trigger] ts[i])
}

/// The mathematical shape of a record: its primitive parts.
pub struct RecordModel {
    pub number: u16,
    pub name: Seq<char>,
    pub types: Seq<Seq<char>>,
}

/// A record model is valid when each of its parts is.
pub open spec fn valid_record(r: RecordModel) -> bool {
    valid_number(r.number) && valid_name(r.name) && valid_tags(r.types)
}

/// The unique, validated identifier of a record.
#[derive(Clone, Copy, PartialEq, Eq, Structural)]
pub struct PokemonNumber {
    value: u16,
}

impl View for PokemonNumber {
    type V = u16;

    closed spec fn view(&self) -> u16 {
        self.value
    }
}

impl PokemonNumber {
    /// The invariant every constructed identifier satisfies.
    pub open spec fn wf(&self) -> bool {
        valid_number(self@)
    }

    /// The single gate: accepts exactly the valid identifiers.
    pub fn try_from(n: u16) -> (r: Result<PokemonNumber, ()>)
        ensures
            r is Ok <==> valid_number(n),
            r matches Ok(p) ==> p@ == n && p.wf(),
    {
        if n == 0 {
            Err(())
        } else {
            Ok(PokemonNumber { value: n })
        }
    }

    /// Lossless accessor back to the primitive form.
    pub fn value(&self) -> (r: u16)
        ensures
            r == self@,
    {
        self.value
    }
}

/// The validated, non-empty name of a record.
pub struct PokemonName {
    value: String,
}

impl View for PokemonName {
    type V = Seq<char>;

    closed spec fn view(&self) -> Seq<char> {
        self.value@
    }
}

impl Clone for PokemonName {
    fn clone(&self) -> (r: Self)
        ensures
            r@ == self@,
    {
        PokemonName { value: self.value.clone() }
    }
}

impl PokemonName {
    /// The invariant every constructed name satisfies.
    pub open spec fn wf(&self) -> bool {
        valid_name(self@)
    }

    /// The single gate: accepts exactly the non-empty strings.
    pub fn try_from(s: String) -> (r: Result<PokemonName, ()>)
        ensures
            r is Ok <==> valid_name(s@),
            r matches Ok(p) ==> p@ == s@ && p.wf(),
    {
        if s.as_str().is_empty() {
            Err(())
        } else {
            Ok(PokemonName { value: s })
        }
    }

    /// Lossless accessor back to the primitive form.
    pub fn value(&self) -> (r: String)
        ensures
            r@ == self@,
    {
        self.value.clone()
    }
}

/// One category tag out of the fixed vocabulary.
#[derive(Clone, Copy, PartialEq, Eq, Structural)]
pub enum PokemonType {
    Electric,
    Fire,
}

impl View for PokemonType {
    type V = Seq<char>;

    closed spec fn view(&self) -> Seq<char> {
        match self {
            PokemonType::Electric => "Electric"@,
            PokemonType::Fire => "Fire"@,
        }
    }
}

impl DeepView for PokemonType {
    type V = Seq<char>;

    open spec fn deep_view(&self) -> Seq<char> {
        self@
    }
}

impl PokemonType {
    /// Accepts exactly the strings of the vocabulary.
    pub fn try_from(s: &String) -> (r: Result<PokemonType, ()>)
        ensures
            r is Ok <==> valid_tag(s@),
            r matches Ok(t) ==> t@ == s@,
    {
        let electric: String = "Electric".to_owned();
        let fire: String = "Fire".to_owned();
        if *s == electric {
            Ok(PokemonType::Electric)
        } else if *s == fire {
            Ok(PokemonType::Fire)
        } else {
            Err(())
        }
    }

    /// Lossless accessor back to the primitive form.
    pub fn as_string(&self) -> (r: String)
        ensures
            r@ == self@,
    {
        match self {
            PokemonType::Electric => "Electric".to_owned(),
            PokemonType::Fire => "Fire".to_owned(),
        }
    }
}

/// The validated, non-empty ordered list of category tags of a record.
pub struct PokemonTypes {
    tags: Vec<PokemonType>,
}

impl View for PokemonTypes {
    type V = Seq<Seq<char>>;

    closed spec fn view(&self) -> Seq<Seq<char>> {
        self.tags.deep_view()
    }
}

impl Clone for PokemonTypes {
    fn clone(&self) -> (r: Self)
        ensures
            r@ == self@,
    {
        let mut tags: Vec<PokemonType> = Vec::new();
        let mut i: usize = 0;
        while i < self.tags.len()
            invariant
                i <= self.tags.len(),
                tags@ =~= self.tags@.take(i as int),
            decreases self.tags.len() - i,
        {
            tags.push(self.tags[i]);
            i = i + 1;
        }
        assert(tags@ =~= self.tags@);
        assert(tags.deep_view() =~= self.tags.deep_view());
        PokemonTypes { tags }
    }
}

impl PokemonTypes {
    /// The invariant every constructed tag list satisfies.
    pub open spec fn wf(&self) -> bool {
        valid_tags(self@)
    }

    /// The single gate: accepts exactly the valid tag lists.
    pub fn try_from(list: Vec<String>) -> (r: Result<PokemonTypes, ()>)
        ensures
            r is Ok <==> valid_tags(list.deep_view()),
            r matches Ok(t) ==> t@ == list.deep_view() && t.wf(),
    {
        if list.len() == 0 {
            return Err(());
        }
        let mut tags: Vec<PokemonType> = Vec::new();
        let mut i: usize = 0;
        while i < list.len()
            invariant
                i <= list.len(),
                tags@.len() == i,
                forall|j: int| 0 <= j < i ==> valid_tag((#[trigger] list@[j])@),
                forall|j: int| 0 <= j < i ==> (#[trigger] tags@[j])@ == list@[j]@,
            decreases list.len() - i,
        {
            match PokemonType::try_from(&list[i]) {
                Ok(t) => {
                    tags.push(t);
                },
                Err(()) => {
                    proof {
                        assert(list.deep_view()[i as int] == list@[i as int]@);
                        assert(!valid_tag(list.deep_view()[i as int]));
                    }
                    return Err(());
                },
            }
            i = i + 1;
        }
        let r = PokemonTypes { tags };
        assert(r@ =~= list.deep_view());
        Ok(r)
    }

    /// Lossless accessor back to the primitive form.
    pub fn to_vec(&self) -> (r: Vec<String>)
        ensures
            r.deep_view() == self@,
    {
        let mut out: Vec<String> = Vec::new();
        let mut i: usize = 0;
        while i < self.tags.len()
            invariant
                i <= self.tags.len(),
                out@.len() == i,
                forall|j: int| 0 <= j < i ==> (#[trigger] out@[j])@ == self.tags@[j]@,
            decreases self.tags.len() - i,
        {
            out.push(self.tags[i].as_string());
            i = i + 1;
        }
        assert(out.deep_view() =~= self@);
        out
    }
}

/// A catalog record: the validated identifier, name and tags together.
pub struct Pokemon {
    pub number: PokemonNumber,
    pub name: PokemonName,
    pub types: PokemonTypes,
}

impl View for Pokemon {
    type V = RecordModel;

    open spec fn view(&self) -> RecordModel {
        RecordModel { number: self.number@, name: self.name@, types: self.types@ }
    }
}

impl DeepView for Pokemon {
    type V = RecordModel;

    open spec fn deep_view(&self) -> RecordModel {
        self@
    }
}

impl Clone for Pokemon {
    fn clone(&self) -> (r: Self)
        ensures
            r@ == self@,
    {
        Pokemon { number: self.number, name: self.name.clone(), types: self.types.clone() }
    }
}

impl Pokemon {
    /// The invariant every record built from validated parts satisfies.
    pub open spec fn wf(&self) -> bool {
        self.number.wf() && self.name.wf() && self.types.wf()
    }

    /// Assembles a record from already-validated parts.
    pub fn new(number: PokemonNumber, name: PokemonName, types: PokemonTypes) -> (r: Pokemon)
        ensures
            r@ == (RecordModel { number: number@, name: name@, types: types@ }),
            r.wf() == (number.wf() && name.wf() && types.wf()),
    {
        Pokemon { number, name, types }
    }
}

} // verus!
