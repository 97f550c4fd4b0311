//! Reference names: what names a revision.

use vstd::prelude::*;

verus! {

/// A reference name is legal where it is not empty and holds no NUL
/// character.
pub open spec fn is_legal_reference(name: Seq<char>) -> bool {
    name.len() > 0 && !name.contains('\0')
}

/// A reference name that has been found legal.
#[derive(Debug, PartialEq, Eq)]
pub struct Reference {
    name: String,
}

impl View for Reference {
    type V = Seq<char>;

    closed spec fn view(&self) -> Seq<char> {
        self.name@
    }
}

/// Whether `name` is a legal reference name.
pub fn is_legal(name: &str) -> (legal: bool)
    ensures
        legal == is_legal_reference(name@),
{
    let mut clean = true;
    for c in it: name.chars()
        invariant
            it.seq() == name@,
            clean == (forall|k: int| 0 <= k < it.index() ==> name@[k] != '\0'),
    {
        clean = clean && c != '\0';
    }
    proof {
        if !clean {
            let k = choose|k: int| 0 <= k < name@.len() && name@[k] == '\0';
            assert(name@.contains('\0'));
        }
    }
    clean && !name.is_empty()
}

impl Clone for Reference {
    fn clone(&self) -> (copy: Self)
        ensures
            copy@ == self@,
    {
        proof {
            use_type_invariant(self);
        }
        Reference { name: self.name.clone() }
    }
}

impl Reference {
    #[verifier::type_invariant]
    spec fn well_formed(self) -> bool {
        is_legal_reference(self.name@)
    }

    /// The reference of the given name: there is one exactly where the name
    /// is legal.
    pub fn parse(name: &str) -> (parsed: Option<Reference>)
        ensures
            parsed.is_some() == is_legal_reference(name@),
            parsed.is_some() ==> parsed.unwrap()@ == name@,
    {
        if is_legal(name) {
            Some(Reference { name: name.to_owned() })
        } else {
            None
        }
    }

    /// The name of the reference, which is legal.
    pub fn as_str(&self) -> (name: &str)
        ensures
            name@ == self@,
            is_legal_reference(name@),
    {
        proof {
            use_type_invariant(self);
        }
        self.name.as_str()
    }
}

} // verus!
