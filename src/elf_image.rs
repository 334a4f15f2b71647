use vstd::prelude::*;

verus! {

#[verifier::external_type_specification]
#[verifier::external_body]
pub struct ExElf<'a>(goblin::elf::Elf<'a>);

#[verifier::external_type_specification]
#[verifier::external_body]
pub struct ExGoblinError(goblin::error::Error);

/// The bytes that a parsed ELF image was read from.
pub uninterp spec fn elf_source(e: goblin::elf::Elf) -> Seq<u8>;

/// Whether goblin accepts the bytes as an ELF image.
pub uninterp spec fn elf_accepts(bytes: Seq<u8>) -> bool;

/// The symbol table of the ELF image in the bytes, as pairs of
/// (offset of the name in the string table, value).
pub uninterp spec fn elf_symtab(bytes: Seq<u8>) -> Seq<(usize, u64)>;

/// The string that starts at an offset of the string table of the ELF image
/// in the bytes, if the offset lies in it.
pub uninterp spec fn elf_strtab_entry(bytes: Seq<u8>, offset: usize) -> Option<Seq<char>>;

/// Relies on goblin::elf::Elf::parse, a function of the bytes alone.
#[verifier::external_body]
pub(crate) fn parse_elf<'a>(bytes: &'a [u8]) -> (r: Result<goblin::elf::Elf<'a>, goblin::error::Error>)
    ensures
        r is Ok <==> elf_accepts(bytes@),
        r matches Ok(e) ==> elf_source(e) == bytes@,
{
    goblin::elf::Elf::parse(bytes)
}

/// Relies on goblin::elf::Symtab::len: the number of entries of the symbol table.
#[verifier::external_body]
pub(crate) fn symbol_count(e: &goblin::elf::Elf) -> (r: usize)
    ensures
        r == elf_symtab(elf_source(*e)).len(),
{
    e.syms.len()
}

/// Relies on goblin::elf::Symtab::get: the entry at an index, `None` past the end.
#[verifier::external_body]
pub(crate) fn symbol_at(e: &goblin::elf::Elf, index: usize) -> (r: Option<(usize, u64)>)
    ensures
        index < elf_symtab(elf_source(*e)).len() ==> r == Some(elf_symtab(elf_source(*e))[index as int]),
        index >= elf_symtab(elf_source(*e)).len() ==> r is None,
{
    e.syms.get(index).map(|s| (s.st_name, s.st_value))
}

/// Relies on goblin::strtab::Strtab::get_at: the name at an offset of the string table.
#[verifier::external_body]
pub(crate) fn name_at(e: &goblin::elf::Elf, offset: usize) -> (r: Option<String>)
    ensures
        match r {
            Some(s) => elf_strtab_entry(elf_source(*e), offset) == Some(s@),
            None => elf_strtab_entry(elf_source(*e), offset) is None,
        },
{
    e.strtab.get_at(offset).map(|s| s.to_owned())
}

} // verus!
