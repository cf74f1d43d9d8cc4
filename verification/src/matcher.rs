//! Which advertised devices are the one looked for.

use vstd::prelude::*;
use vstd::std_specs::iter::IteratorSpec;

verus! {

/// What a device advertises about itself, as far as the search reads it.
#[derive(Debug, Clone, PartialEq, Eq)]
pub struct Properties {
    /// The advertised local name, where the device has sent one.
    pub local_name: Option<String>,
}

/// A device is the one looked for when its properties are known, carry a
/// local name, and that name starts with the prefix, character for character.
pub open spec fn name_matches(props: Option<Properties>, prefix: Seq<char>) -> bool {
    match props {
        Some(p) => match p.local_name {
            Some(name) => prefix.is_prefix_of(name@),
            None => false,
        },
        None => false,
    }
}

/// Whether the characters of `prefix` are the first characters of `name`,
/// compared exactly and with regard to case.
pub fn starts_with(name: &str, prefix: &str) -> (r: bool)
    ensures
        r == prefix@.is_prefix_of(name@),
{
    broadcast use {vstd::string::axiom_spec_iter, vstd::string::next_postcondition};

    let mut rest_of_name = name.chars();
    let mut rest_of_prefix = prefix.chars();
    let ghost mut seen: int = 0;
    loop
        invariant
            0 <= seen <= prefix@.len(),
            seen <= name@.len(),
            rest_of_name.obeys_prophetic_iter_laws(),
            rest_of_prefix.obeys_prophetic_iter_laws(),
            rest_of_name.remaining() == name@.subrange(seen, name@.len() as int),
            rest_of_prefix.remaining() == prefix@.subrange(seen, prefix@.len() as int),
            name@.subrange(0, seen) == prefix@.subrange(0, seen),
        decreases prefix@.len() - seen,
    {
        let wanted = rest_of_prefix.next();
        match wanted {
            None => {
                assert(prefix@.subrange(0, seen) =~= prefix@);
                return true;
            },
            Some(p) => {
                let found = rest_of_name.next();
                match found {
                    None => {
                        return false;
                    },
                    Some(n) => {
                        assert(p == prefix@[seen]);
                        assert(n == name@[seen]);
                        if n != p {
                            assert(!prefix@.is_prefix_of(name@)) by {
                                if prefix@.is_prefix_of(name@) {
                                    assert(name@.subrange(0, prefix@.len() as int)[seen]
                                        == prefix@[seen]);
                                }
                            }
                            return false;
                        }
                        proof {
                            assert(name@.subrange(0, seen + 1) =~= prefix@.subrange(0, seen + 1))
                                by {
                                assert forall|j: int| 0 <= j < seen + 1 implies name@[j]
                                    == prefix@[j] by {
                                    if j < seen {
                                        assert(name@.subrange(0, seen)[j] == prefix@.subrange(
                                            0,
                                            seen,
                                        )[j]);
                                    }
                                }
                            }
                            assert(name@.subrange(seen, name@.len() as int).drop_first()
                                =~= name@.subrange(seen + 1, name@.len() as int));
                            assert(prefix@.subrange(seen, prefix@.len() as int).drop_first()
                                =~= prefix@.subrange(seen + 1, prefix@.len() as int));
                            seen = seen + 1;
                        }
                    },
                }
            },
        }
    }
}

/// Decides whether advertised properties belong to the device looked for.
pub fn device_matches(props: &Option<Properties>, prefix: &str) -> (r: bool)
    ensures
        r == name_matches(*props, prefix@),
        r <==> (props is Some && props->0.local_name is Some && prefix@.is_prefix_of(
            props->0.local_name->0@,
        )),
{
    match props {
        Some(p) => match &p.local_name {
            Some(name) => starts_with(name.as_str(), prefix),
            None => false,
        },
        None => false,
    }
}

/// The empty prefix matches every device that advertises a name.
pub proof fn lemma_empty_prefix_matches_named(props: Option<Properties>)
    ensures
        name_matches(props, Seq::<char>::empty()) <==> (props is Some && props->0.local_name
            is Some),
{
}

/// Without properties, or without a name among them, nothing matches.
pub proof fn lemma_nameless_never_matches(props: Option<Properties>, prefix: Seq<char>)
    requires
        props is None || props->0.local_name is None,
    ensures
        !name_matches(props, prefix),
{
}

} // verus!
