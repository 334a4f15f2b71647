use vstd::prelude::*;

use crate::elf_image::{
    elf_accepts, elf_source, elf_strtab_entry, elf_symtab, name_at, parse_elf, symbol_at,
    symbol_count,
};
use crate::error::BuildError;

verus! {

/// A symbol of an ELF image: its name, if the string table yields one, and its value.
pub struct SymbolEntry {
    pub name: Option<String>,
    pub value: u64,
}

impl View for SymbolEntry {
    type V = (Option<Seq<char>>, u64);

    open spec fn view(&self) -> (Option<Seq<char>>, u64) {
        (
            match self.name {
                Some(s) => Some(s@),
                None => None,
            },
            self.value,
        )
    }
}

/// The name of the symbol that marks the start of the region.
pub open spec fn start_symbol() -> Seq<char> {
    "_nvram_data"@
}

/// The name of the symbol that marks the end of the region.
pub open spec fn end_symbol() -> Seq<char> {
    "_envram_data"@
}

/// The value of the last symbol of the given name, if there is one.
pub open spec fn last_value_named(syms: Seq<(Option<Seq<char>>, u64)>, name: Seq<char>) -> Option<u64>
    decreases syms.len(),
{
    if syms.len() == 0 {
        None
    } else if syms.last().0 == Some(name) {
        Some(syms.last().1)
    } else {
        last_value_named(syms.drop_last(), name)
    }
}

/// Every symbol's name could be read.
pub open spec fn all_names_readable(syms: Seq<(Option<Seq<char>>, u64)>) -> bool {
    forall|i: int| 0 <= i < syms.len() ==> (#[trigger] syms[i]).0 is Some
}

/// The size of the region between two boundary addresses.
pub open spec fn region_size_of(start: Option<u64>, end: Option<u64>) -> Result<u64, BuildError> {
    match (start, end) {
        (Some(s), Some(e)) => if s <= e {
            Ok((e - s) as u64)
        } else {
            Err(BuildError::RegionInvariantFailure)
        },
        _ => Err(BuildError::SymbolResolutionFailure),
    }
}

/// The size of the region bounded by the start and end symbols of a symbol table.
pub open spec fn region_of_symbols(syms: Seq<(Option<Seq<char>>, u64)>) -> Result<u64, BuildError> {
    if !all_names_readable(syms) {
        Err(BuildError::SymbolResolutionFailure)
    } else {
        region_size_of(last_value_named(syms, start_symbol()), last_value_named(syms, end_symbol()))
    }
}

/// The symbols of the ELF image in the bytes, each with its name looked up.
pub open spec fn image_symbols(bytes: Seq<u8>) -> Seq<(Option<Seq<char>>, u64)> {
    elf_symtab(bytes).map_values(|s: (usize, u64)| (elf_strtab_entry(bytes, s.0), s.1))
}

/// The size of the region of the ELF image in the bytes.
pub open spec fn region_of_image(bytes: Seq<u8>) -> Result<u64, BuildError> {
    if !elf_accepts(bytes) {
        Err(BuildError::FormatFailure)
    } else {
        region_of_symbols(image_symbols(bytes))
    }
}

/// The view of each entry of a list of symbols.
pub open spec fn entries_view(syms: Seq<SymbolEntry>) -> Seq<(Option<Seq<char>>, u64)> {
    syms.map_values(|s: SymbolEntry| s@)
}

/// The distance from `start` to `end`; fails where either is absent or `end < start`.
pub fn region_size(start: Option<u64>, end: Option<u64>) -> (r: Result<u64, BuildError>)
    ensures
        r == region_size_of(start, end),
{
    match (start, end) {
        (Some(s), Some(e)) => if s <= e {
            Ok(e - s)
        } else {
            Err(BuildError::RegionInvariantFailure)
        },
        _ => Err(BuildError::SymbolResolutionFailure),
    }
}

/// The size of the region bounded by `_nvram_data` and `_envram_data` in a list of
/// symbols, where the last symbol of each name counts.
pub fn region_from_symbols(syms: &Vec<SymbolEntry>) -> (r: Result<u64, BuildError>)
    ensures
        r == region_of_symbols(entries_view(syms@)),
{
    let ghost v = entries_view(syms@);
    let start_name = "_nvram_data".to_owned();
    let end_name = "_envram_data".to_owned();
    let mut start: Option<u64> = None;
    let mut end: Option<u64> = None;
    proof {
        reveal_strlit("_nvram_data");
        reveal_strlit("_envram_data");
        assert(start_symbol().len() != end_symbol().len());
    }
    let mut i: usize = 0;
    while i < syms.len()
        invariant
            i <= syms.len(),
            v == entries_view(syms@),
            start_name@ == start_symbol(),
            end_name@ == end_symbol(),
            start_symbol() != end_symbol(),
            all_names_readable(v.take(i as int)),
            start == last_value_named(v.take(i as int), start_symbol()),
            end == last_value_named(v.take(i as int), end_symbol()),
        decreases syms.len() - i,
    {
        let entry = &syms[i];
        proof {
            assert(v.take(i + 1).drop_last() =~= v.take(i as int));
            assert(v.take(i + 1).last() == entry@);
        }
        match &entry.name {
            None => {
                proof {
                    assert(v[i as int].0 is None);
                }
                return Err(BuildError::SymbolResolutionFailure);
            },
            Some(name) => {
                if *name == start_name {
                    start = Some(entry.value);
                } else if *name == end_name {
                    end = Some(entry.value);
                }
                proof {
                    assert forall|j: int| 0 <= j < i + 1 implies (#[trigger] v.take(i + 1)[j]).0 is Some by {
                        if j < i {
                            assert(v.take(i + 1)[j] == v.take(i as int)[j]);
                        }
                    }
                }
            },
        }
        i = i + 1;
    }
    proof {
        assert(v.take(i as int) =~= v);
    }
    region_size(start, end)
}

/// The symbols of a parsed ELF image, each with its name looked up.
fn read_symbols(e: &goblin::elf::Elf) -> (r: Vec<SymbolEntry>)
    ensures
        entries_view(r@) == image_symbols(elf_source(*e)),
{
    let ghost src = elf_source(*e);
    let n = symbol_count(e);
    let mut out: Vec<SymbolEntry> = Vec::new();
    let mut i: usize = 0;
    while i < n
        invariant
            i <= n,
            n == elf_symtab(src).len(),
            src == elf_source(*e),
            out@.len() == i,
            forall|j: int| 0 <= j < i ==> (#[trigger] out@[j])@ == image_symbols(src)[j],
        decreases n - i,
    {
        if let Some((offset, value)) = symbol_at(e, i) {
            let name = name_at(e, offset);
            out.push(SymbolEntry { name, value });
        }
        i = i + 1;
    }
    proof {
        assert(entries_view(out@) =~= image_symbols(src));
    }
    out
}

/// The size of the non-volatile data region of the ELF image in `bytes`: the value
/// of `_envram_data` less that of `_nvram_data`.
pub fn retrieve_data_size(bytes: &[u8]) -> (r: Result<u64, BuildError>)
    ensures
        r == region_of_image(bytes@),
{
    match parse_elf(bytes) {
        Err(_) => Err(BuildError::FormatFailure),
        Ok(e) => {
            let syms = read_symbols(&e);
            region_from_symbols(&syms)
        },
    }
}

/// Where no symbol carries the name, no value is found for it.
pub proof fn lemma_absent_name_has_no_value(syms: Seq<(Option<Seq<char>>, u64)>, name: Seq<char>)
    requires
        forall|i: int| 0 <= i < syms.len() ==> (#[trigger] syms[i]).0 != Some(name),
    ensures
        last_value_named(syms, name) is None,
    decreases syms.len(),
{
    if syms.len() > 0 {
        assert(syms.last() == syms[syms.len() - 1]);
        let rest = syms.drop_last();
        assert forall|i: int| 0 <= i < rest.len() implies (#[trigger] rest[i]).0 != Some(name) by {
            assert(rest[i] == syms[i]);
        }
        lemma_absent_name_has_no_value(rest, name);
    }
}

/// An ELF image whose start and end symbols are both found, with the end at or
/// above the start, has a region of exactly the distance between them.
pub proof fn lemma_region_is_distance(bytes: Seq<u8>, start: u64, end: u64)
    requires
        elf_accepts(bytes),
        all_names_readable(image_symbols(bytes)),
        last_value_named(image_symbols(bytes), start_symbol()) == Some(start),
        last_value_named(image_symbols(bytes), end_symbol()) == Some(end),
        start <= end,
    ensures
        region_of_image(bytes) == Ok::<u64, BuildError>((end - start) as u64),
{
}

/// An ELF image without an `_envram_data` symbol fails with a symbol resolution failure.
pub proof fn lemma_missing_end_symbol(bytes: Seq<u8>)
    requires
        elf_accepts(bytes),
        forall|i: int|
            0 <= i < image_symbols(bytes).len() ==> (#[trigger] image_symbols(bytes)[i]).0 != Some(
                end_symbol(),
            ),
    ensures
        region_of_image(bytes) == Err::<u64, BuildError>(BuildError::SymbolResolutionFailure),
{
    lemma_absent_name_has_no_value(image_symbols(bytes), end_symbol());
}

/// An ELF image whose `_envram_data` lies below its `_nvram_data` fails with a
/// region invariant failure, never a wrapped size.
pub proof fn lemma_end_before_start(bytes: Seq<u8>, start: u64, end: u64)
    requires
        elf_accepts(bytes),
        all_names_readable(image_symbols(bytes)),
        last_value_named(image_symbols(bytes), start_symbol()) == Some(start),
        last_value_named(image_symbols(bytes), end_symbol()) == Some(end),
        end < start,
    ensures
        region_of_image(bytes) == Err::<u64, BuildError>(BuildError::RegionInvariantFailure),
{
}

/// Bytes that are not an ELF image fail with a format failure.
pub proof fn lemma_not_elf(bytes: Seq<u8>)
    requires
        !elf_accepts(bytes),
    ensures
        region_of_image(bytes) == Err::<u64, BuildError>(BuildError::FormatFailure),
{
}

/// The region size is a function of the image's bytes: two computations on the
/// same bytes give the same result.
pub proof fn lemma_region_deterministic(
    bytes1: Seq<u8>,
    bytes2: Seq<u8>,
    r1: Result<u64, BuildError>,
    r2: Result<u64, BuildError>,
)
    requires
        bytes1 == bytes2,
        r1 == region_of_image(bytes1),
        r2 == region_of_image(bytes2),
    ensures
        r1 == r2,
{
}

} // verus!
