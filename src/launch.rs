//! Program launch: the entry point's calling convention and the marshalling
//! of the argument vector onto the guest stack.
use vstd::prelude::*;
use vstd::string::StringSliceAdditionalSpecFns;

verus! {

/// How the entry point is invoked, by its declared parameter count.
#[derive(Clone, Copy, Debug, PartialEq, Eq, Structural)]
pub enum EntryCall {
    /// Two parameters: `(argc, argv)`.
    WithArguments,
    /// No parameters.
    NoArguments,
}

/// A fatal configuration error found before the entry point runs.
#[derive(Clone, Copy, Debug, PartialEq, Eq, Structural)]
pub enum ConfigError {
    /// The entry point declares a parameter count other than zero or two.
    IncorrectParamCount(usize),
}

/// The calling convention for an entry point with `num_params` parameters.
pub open spec fn entry_call_of(num_params: int) -> Result<EntryCall, ConfigError> {
    if num_params == 2 {
        Ok(EntryCall::WithArguments)
    } else if num_params == 0 {
        Ok(EntryCall::NoArguments)
    } else {
        Err(ConfigError::IncorrectParamCount(num_params as usize))
    }
}

/// Chooses how to call an entry point that declares `num_params` parameters;
/// any count but two or zero is a configuration error, and the entry point is
/// then not called.
pub fn entry_dispatch(num_params: usize) -> (r: Result<EntryCall, ConfigError>)
    ensures
        r == entry_call_of(num_params as int),
{
    if num_params == 2 {
        Ok(EntryCall::WithArguments)
    } else if num_params == 0 {
        Ok(EntryCall::NoArguments)
    } else {
        Err(ConfigError::IncorrectParamCount(num_params))
    }
}

/// The bytes of a NUL-terminated copy of `s`.
pub open spec fn cstr_of(s: Seq<u8>) -> Seq<u8> {
    s.push(0u8)
}

/// The strings that go onto the guest stack: the program path, then each
/// argument in order, each NUL-terminated.
pub open spec fn argument_strings_of(path: &str, args: Seq<&str>) -> Seq<Seq<u8>> {
    seq![cstr_of(path.spec_bytes())] + Seq::new(
        args.len(),
        |i: int| cstr_of(args[i].spec_bytes()),
    )
}

/// The pointer array handed to the entry point: one pointer per string, then a
/// terminating zero.
pub open spec fn argv_of(pointers: Seq<u32>) -> Seq<u32> {
    pointers.push(0u32)
}

/// A NUL-terminated copy of the bytes of `s`.
pub fn cstr_bytes(s: &str) -> (r: Vec<u8>)
    ensures
        r@ == cstr_of(s.spec_bytes()),
{
    let bytes: &[u8] = s.as_bytes();
    let mut r: Vec<u8> = Vec::new();
    let mut i: usize = 0;
    while i < bytes.len()
        invariant
            bytes@ == s.spec_bytes(),
            i <= bytes@.len(),
            r@ == bytes@.subrange(0, i as int),
        decreases bytes@.len() - i,
    {
        r.push(bytes[i]);
        i = i + 1;
        assert(r@ =~= bytes@.subrange(0, i as int));
    }
    assert(r@ =~= bytes@);
    r.push(0u8);
    r
}

/// The argument count: the program path and each argument.
pub fn argument_count(args: &Vec<&str>) -> (r: u32)
    requires
        args@.len() < u32::MAX,
    ensures
        r == args@.len() + 1,
{
    (args.len() + 1) as u32
}

/// The NUL-terminated strings to place on the guest stack, program path first.
pub fn argument_strings(path: &str, args: &Vec<&str>) -> (r: Vec<Vec<u8>>)
    ensures
        r@.len() == args@.len() + 1,
        forall|k: int| 0 <= k < r@.len() ==> #[trigger] r@[k]@ == argument_strings_of(path, args@)[k],
{
    let mut r: Vec<Vec<u8>> = Vec::new();
    r.push(cstr_bytes(path));
    let mut i: usize = 0;
    while i < args.len()
        invariant
            i <= args@.len(),
            r@.len() == i + 1,
            forall|k: int| 0 <= k < r@.len() ==> #[trigger] r@[k]@ == argument_strings_of(path, args@)[k],
        decreases args@.len() - i,
    {
        let s: Vec<u8> = cstr_bytes(args[i]);
        r.push(s);
        i = i + 1;
    }
    r
}

/// The pointer array for the strings at `pointers`: each pointer in order, then zero.
pub fn argv_table(pointers: &Vec<u32>) -> (r: Vec<u32>)
    ensures
        r@ == argv_of(pointers@),
{
    let mut r: Vec<u32> = Vec::new();
    let mut i: usize = 0;
    while i < pointers.len()
        invariant
            i <= pointers@.len(),
            r@ == pointers@.subrange(0, i as int),
        decreases pointers@.len() - i,
    {
        r.push(pointers[i]);
        i = i + 1;
        assert(r@ =~= pointers@.subrange(0, i as int));
    }
    assert(r@ =~= pointers@);
    r.push(0u32);
    r
}

/// Size in bytes of the pointer array for `argc` strings.
pub fn argv_table_size(argc: u32) -> (r: u32)
    requires
        (argc as int + 1) * 4 <= u32::MAX,
    ensures
        r == (argc + 1) * 4,
{
    (argc + 1) * 4
}

/// The argument vector round-trips: with one pointer per marshalled string,
/// the array has `argc + 1` entries, entry `k` points at the `k`-th input
/// (the path, then each argument) followed by a NUL, and the last entry is zero.
pub proof fn lemma_argv_round_trip(path: &str, args: Seq<&str>, pointers: Seq<u32>)
    requires
        pointers.len() == argument_strings_of(path, args).len(),
    ensures
        ({
            let argc = args.len() + 1;
            let strings = argument_strings_of(path, args);
            let argv = argv_of(pointers);
            &&& strings.len() == argc
            &&& argv.len() == argc + 1
            &&& argv[argc as int] == 0
            &&& forall|k: int| 0 <= k < argc ==> argv[k] == #[trigger] pointers[k]
            &&& strings[0] == path.spec_bytes().push(0u8)
            &&& forall|k: int|
                0 <= k < args.len() ==> #[trigger] strings[k + 1] == args[k].spec_bytes().push(0u8)
        }),
{
}

} // verus!
