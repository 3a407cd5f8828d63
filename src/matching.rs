use vstd::prelude::*;
use crate::error::PipelineError;
use crate::text::{contains_seq, str_contains};

verus! {

/// A peripheral matches when it advertises a local name that holds `pattern`.
pub open spec fn advertises(name: Option<String>, pattern: Seq<char>) -> bool {
    match name {
        Some(n) => contains_seq(n@, pattern),
        None => false,
    }
}

/// Picks the adapter to use among `count` enumerated ones: always the first.
pub fn locate_adapter(count: usize) -> (r: Result<usize, PipelineError>)
    ensures
        count == 0 ==> r == Err::<usize, PipelineError>(PipelineError::NoAdapterFound),
        count > 0 ==> r == Ok::<usize, PipelineError>(0),
{
    if count == 0 {
        Err(PipelineError::NoAdapterFound)
    } else {
        Ok(0)
    }
}

/// Scans the advertised names, in enumeration order, for the first one that
/// contains `pattern` (case-sensitive). `None` stands for a peripheral whose
/// properties or local name could not be read.
pub fn select_peripheral(names: &Vec<Option<String>>, pattern: &str) -> (r: Result<
    usize,
    PipelineError,
>)
    ensures
        match r {
            Ok(i) => {
                &&& i < names@.len()
                &&& advertises(names@[i as int], pattern@)
                &&& forall|j: int| 0 <= j < i ==> !#[trigger] advertises(names@[j], pattern@)
            },
            Err(e) => {
                &&& e == PipelineError::DeviceNotFound
                &&& forall|j: int| 0 <= j < names@.len() ==> !#[trigger] advertises(names@[j], pattern@)
            },
        },
{
    let mut i: usize = 0;
    while i < names.len()
        invariant
            i <= names@.len(),
            forall|j: int| 0 <= j < i ==> !#[trigger] advertises(names@[j], pattern@),
        decreases names@.len() - i,
    {
        let hit = match &names[i] {
            Some(n) => str_contains(n.as_str(), pattern),
            None => false,
        };
        if hit {
            return Ok(i);
        }
        i = i + 1;
    }
    Err(PipelineError::DeviceNotFound)
}

/// Linear search for the characteristic whose identifier equals `id`.
pub fn select_characteristic(ids: &Vec<u128>, id: u128) -> (r: Result<usize, PipelineError>)
    ensures
        match r {
            Ok(i) => i < ids@.len() && ids@[i as int] == id && forall|j: int|
                0 <= j < i ==> ids@[j] != id,
            Err(e) => e == PipelineError::CharacteristicNotFound && !ids@.contains(id),
        },
{
    let mut i: usize = 0;
    while i < ids.len()
        invariant
            i <= ids@.len(),
            forall|j: int| 0 <= j < i ==> ids@[j] != id,
        decreases ids@.len() - i,
    {
        if ids[i] == id {
            return Ok(i);
        }
        i = i + 1;
    }
    Err(PipelineError::CharacteristicNotFound)
}

} // verus!
