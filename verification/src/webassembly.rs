//! Entry-point dispatch: which start-up convention a module expects, how
//! its arguments are marshalled, and what a finished instantiation holds.

use vstd::prelude::*;

verus! {

/// A compiled module together with one instance of it.
pub struct ResultObject<M, I> {
    /// The compiled module. It can be instantiated again.
    pub module: M,
    /// The instance, which holds every exported function.
    pub instance: Box<I>,
}

/// The start-up convention that a module expects.
#[derive(Debug, Clone, Copy, PartialEq, Eq, Structural)]
pub enum InstanceABI {
    /// The POSIX-emulation start-up sequence.
    Emscripten,
    /// No convention beyond a bare `main` that takes 32-bit integers.
    Bare,
}

/// An argument that is not a 32-bit integer literal, by its position.
#[derive(Debug, Clone, Copy, PartialEq, Eq, Structural)]
pub struct InvalidArgument {
    pub index: usize,
}

/// Why a run failed. `E` is what the execution layer reports.
#[derive(Debug)]
pub enum CallError<E> {
    /// An argument could not be marshalled; nothing was executed.
    InvalidArgument(InvalidArgument),
    /// Execution began and failed.
    Execution(E),
}

/// Why no module or no instance came out. `C` is what the compiler reports,
/// `L` what the linker reports.
#[derive(Debug)]
pub enum Error<C, L> {
    /// The bytes are malformed or hold what the compiler does not support.
    CompileError(C),
    /// An import is missing or has the wrong type.
    LinkError(L),
    /// The operation is declared and not implemented.
    NotImplemented,
}

/// What the embedder has to invoke to start an instance.
pub enum EntryCall<'a> {
    /// The Emscripten start-up sequence, with the path and the arguments as
    /// they were given.
    Emscripten { path: &'a str, args: Vec<&'a str> },
    /// The exported function of this name, with these values.
    Main { export: &'static str, values: Vec<i32> },
}

/// Whether `c` is one of the ten decimal digits.
pub open spec fn is_digit(c: char) -> bool {
    '0' <= c && c <= '9'
}

/// Whether `s` holds decimal digits and nothing else.
pub open spec fn all_digits(s: Seq<char>) -> bool {
    forall|i: int| 0 <= i < s.len() ==> is_digit(#[trigger] s[i])
}

/// The number that the decimal digits `s` write, most significant first.
pub open spec fn decimal_value(s: Seq<char>) -> int
    decreases s.len(),
{
    if s.len() == 0 {
        0
    } else {
        decimal_value(s.drop_last()) * 10 + (s.last() as int - '0' as int)
    }
}

/// The 32-bit integer that `s` writes: an optional sign, then at least one
/// decimal digit and nothing else, with a value that fits. `None` for every
/// other text.
pub open spec fn i32_literal(s: Seq<char>) -> Option<i32> {
    let negative = s.len() > 0 && s[0] == '-';
    let signed = s.len() > 0 && (s[0] == '-' || s[0] == '+');
    let digits = if signed { s.skip(1) } else { s };
    let value = if negative { -decimal_value(digits) } else { decimal_value(digits) };
    if digits.len() > 0 && all_digits(digits) && i32::MIN <= value <= i32::MAX {
        Some(value as i32)
    } else {
        None
    }
}

/// Whether `index` is the first position of `args` that holds no 32-bit
/// integer literal.
pub open spec fn first_invalid_argument(args: Seq<&str>, index: int) -> bool {
    &&& 0 <= index < args.len()
    &&& i32_literal(args[index]@) is None
    &&& forall|j: int| 0 <= j < index ==> (#[trigger] i32_literal(args[j]@)) is Some
}

/// Whether `values` are the integers that `args` write, one for one.
pub open spec fn arguments_parse_to(args: Seq<&str>, values: Seq<i32>) -> bool {
    &&& values.len() == args.len()
    &&& forall|j: int| 0 <= j < args.len() ==> #[trigger] i32_literal(args[j]@) == Some(values[j])
}

/// Whether `call` is how an instance of convention `abi` is entered with
/// this path and these arguments: the Emscripten start-up sequence on both
/// as they are, or the export `main` on the integers that the arguments
/// write.
pub open spec fn is_entry_call<'a>(
    abi: InstanceABI,
    path: &'a str,
    args: Vec<&'a str>,
    call: EntryCall<'a>,
) -> bool {
    match call {
        EntryCall::Emscripten { path: p, args: a } => abi == InstanceABI::Emscripten && p == path
            && a == args,
        EntryCall::Main { export, values } => abi == InstanceABI::Bare && export@ == "main"@
            && arguments_parse_to(args@, values@),
    }
}

/// One more than the largest magnitude a 32-bit integer can have. A
/// magnitude that reaches it is out of range whatever the sign.
const MAGNITUDE_CAP: i64 = 2147483649;

impl<M, I> ResultObject<M, I> {
    /// Pairs a module with an instance of it.
    pub fn new(module: M, instance: I) -> (result: Self)
        ensures
            result.module == module,
            *result.instance == instance,
    {
        ResultObject { module, instance: Box::new(instance) }
    }
}

impl InstanceABI {
    /// The convention of a module, from whether it imports the Emscripten
    /// environment.
    pub fn detect(is_emscripten_module: bool) -> (abi: Self)
        ensures
            abi == (if is_emscripten_module {
                InstanceABI::Emscripten
            } else {
                InstanceABI::Bare
            }),
    {
        if is_emscripten_module {
            InstanceABI::Emscripten
        } else {
            InstanceABI::Bare
        }
    }
}

/// The name of the export that a bare module is entered through.
pub fn main_export() -> (name: &'static str)
    ensures
        name@ == "main"@,
{
    "main"
}

/// Reads `s` as a 32-bit integer literal.
pub fn parse_i32(s: &str) -> (value: Option<i32>)
    ensures
        value == i32_literal(s@),
{
    let n: usize = s.unicode_len();
    if n == 0 {
        return None;
    }
    let first: char = s.get_char(0);
    let negative: bool = first == '-';
    let start: usize = if first == '-' || first == '+' { 1 } else { 0 };
    if start == n {
        return None;
    }
    let ghost digits: Seq<char> = s@.skip(start as int);
    assert(s@.skip(0) =~= s@);
    let mut acc: i64 = 0;
    let mut i: usize = start;
    while i < n
        invariant
            n == s@.len(),
            start <= i <= n,
            n > 0,
            start == (if s@[0] == '-' || s@[0] == '+' { 1usize } else { 0usize }),
            digits == (if start == 1 { s@.skip(1) } else { s@ }),
            digits.len() == n - start,
            all_digits(digits.take(i - start)),
            0 <= acc <= MAGNITUDE_CAP,
            acc == MAGNITUDE_CAP ==> decimal_value(digits.take(i - start)) >= MAGNITUDE_CAP,
            acc < MAGNITUDE_CAP ==> decimal_value(digits.take(i - start)) == acc,
        decreases n - i,
    {
        let c: char = s.get_char(i);
        if !('0' <= c && c <= '9') {
            assert(digits[i - start] == c);
            return None;
        }
        let digit: i64 = (c as u32 - '0' as u32) as i64;
        proof {
            let next = digits.take(i - start + 1);
            assert(next.drop_last() =~= digits.take(i - start));
            assert(next.last() == c);
        }
        acc = acc * 10 + digit;
        if acc > MAGNITUDE_CAP {
            acc = MAGNITUDE_CAP;
        }
        i += 1;
    }
    assert(digits.take(n - start) =~= digits);
    if negative {
        if acc > 2147483648 {
            None
        } else {
            Some((-acc) as i32)
        }
    } else {
        if acc > 2147483647 {
            None
        } else {
            Some(acc as i32)
        }
    }
}

/// Reads every argument as a 32-bit integer, in order, and stops at the
/// first that is none.
pub fn parse_arguments(args: &Vec<&str>) -> (parsed: Result<Vec<i32>, InvalidArgument>)
    ensures
        match parsed {
            Ok(values) => arguments_parse_to(args@, values@),
            Err(e) => first_invalid_argument(args@, e.index as int),
        },
{
    let mut values: Vec<i32> = Vec::new();
    let mut i: usize = 0;
    while i < args.len()
        invariant
            i <= args.len(),
            values@.len() == i,
            forall|j: int| 0 <= j < i ==> #[trigger] i32_literal(args@[j]@) == Some(values@[j]),
        decreases args.len() - i,
    {
        match parse_i32(args[i]) {
            Some(v) => values.push(v),
            None => {
                return Err(InvalidArgument { index: i });
            },
        }
        i += 1;
    }
    Ok(values)
}

/// Decides how an instance is entered. A module of the Emscripten
/// convention gets its path and arguments as they are. Any other module is
/// entered through `main`, and only with arguments that are all 32-bit
/// integer literals: the first that is none fails the call.
pub fn entry_call<'a>(abi: InstanceABI, path: &'a str, args: Vec<&'a str>) -> (call: Result<
    EntryCall<'a>,
    InvalidArgument,
>)
    ensures
        match call {
            Ok(c) => is_entry_call(abi, path, args, c),
            Err(e) => abi == InstanceABI::Bare && first_invalid_argument(args@, e.index as int),
        },
{
    match abi {
        InstanceABI::Emscripten => Ok(EntryCall::Emscripten { path, args }),
        InstanceABI::Bare => {
            match parse_arguments(&args) {
                Ok(values) => Ok(EntryCall::Main { export: main_export(), values }),
                Err(e) => Err(e),
            }
        },
    }
}

/// Runs an instance once. The entry is decided as `entry_call` says and
/// handed to `execute`, which performs it; what execution reports comes out
/// unchanged. Where an argument of a bare module is no integer literal,
/// nothing is executed.
pub fn run_instance<'a, E, F>(abi: InstanceABI, path: &'a str, args: Vec<&'a str>, execute: F) -> (result:
    Result<(), CallError<E>>)
    where F: FnOnce(EntryCall<'a>) -> Result<(), E>
    requires
        forall|call: EntryCall<'a>|
            is_entry_call(abi, path, args, call) ==> call_requires(execute, (call,)),
    ensures
        match result {
            Ok(_) => exists|call: EntryCall<'a>|
                is_entry_call(abi, path, args, call) && call_ensures(
                    execute,
                    (call,),
                    Ok::<(), E>(()),
                ),
            Err(CallError::Execution(e)) => exists|call: EntryCall<'a>|
                is_entry_call(abi, path, args, call) && call_ensures(
                    execute,
                    (call,),
                    Err::<(), E>(e),
                ),
            Err(CallError::InvalidArgument(e)) => abi == InstanceABI::Bare
                && first_invalid_argument(args@, e.index as int),
        },
{
    match entry_call(abi, path, args) {
        Ok(call) => {
            let ghost decided = call;
            let outcome = execute(call);
            assert(is_entry_call(abi, path, args, decided) && call_ensures(
                execute,
                (decided,),
                outcome,
            ));
            match outcome {
                Ok(done) => {
                    assert(outcome == Ok::<(), E>(done) && done == ());
                    Ok(())
                },
                Err(e) => Err(CallError::Execution(e)),
            }
        },
        Err(e) => Err(CallError::InvalidArgument(e)),
    }
}

/// Compiles a module from its binary code with the given compiler. What the
/// compiler returns is what comes out, its failure as a compile error.
pub fn compile<M, C, L, F>(buffer_source: &[u8], compiler: F) -> (result: Result<M, Error<C, L>>)
    where F: FnOnce(&[u8]) -> Result<M, C>
    requires
        call_requires(compiler, (buffer_source,)),
    ensures
        match result {
            Ok(module) => call_ensures(compiler, (buffer_source,), Ok::<M, C>(module)),
            Err(Error::CompileError(e)) => call_ensures(
                compiler,
                (buffer_source,),
                Err::<M, C>(e),
            ),
            Err(_) => false,
        },
{
    match compiler(buffer_source) {
        Ok(module) => Ok(module),
        Err(e) => Err(Error::CompileError(e)),
    }
}

/// Compiles a module from its binary code with the given compiler, which
/// gets `compiler_config` as it is.
pub fn compile_with_config<M, Config, C, L, F>(
    buffer_source: &[u8],
    compiler_config: Config,
    compiler: F,
) -> (result: Result<M, Error<C, L>>)
    where F: FnOnce(&[u8], Config) -> Result<M, C>
    requires
        call_requires(compiler, (buffer_source, compiler_config)),
    ensures
        match result {
            Ok(module) => call_ensures(
                compiler,
                (buffer_source, compiler_config),
                Ok::<M, C>(module),
            ),
            Err(Error::CompileError(e)) => call_ensures(
                compiler,
                (buffer_source, compiler_config),
                Err::<M, C>(e),
            ),
            Err(_) => false,
        },
{
    match compiler(buffer_source, compiler_config) {
        Ok(module) => Ok(module),
        Err(e) => Err(Error::CompileError(e)),
    }
}

/// Compiles a module and instantiates it in one step. The linker binds the
/// imports; it is asked only for a module that the compiler returned. A
/// compiler failure comes out as a compile error, a linker failure as a link
/// error, and success pairs the module with its instance.
pub fn instantiate<M, I, C, L, FC, FL>(buffer_source: &[u8], compiler: FC, linker: FL) -> (result:
    Result<ResultObject<M, I>, Error<C, L>>)
    where FC: FnOnce(&[u8]) -> Result<M, C>, FL: FnOnce(&M) -> Result<I, L>
    requires
        call_requires(compiler, (buffer_source,)),
        forall|module: M|
            call_ensures(compiler, (buffer_source,), Ok::<M, C>(module)) ==> call_requires(
                linker,
                (&module,),
            ),
    ensures
        match result {
            Ok(object) => call_ensures(compiler, (buffer_source,), Ok::<M, C>(object.module))
                && call_ensures(linker, (&object.module,), Ok::<I, L>(*object.instance)),
            Err(Error::CompileError(e)) => call_ensures(
                compiler,
                (buffer_source,),
                Err::<M, C>(e),
            ),
            Err(Error::LinkError(e)) => exists|module: M|
                call_ensures(compiler, (buffer_source,), Ok::<M, C>(module)) && call_ensures(
                    linker,
                    (&module,),
                    Err::<I, L>(e),
                ),
            Err(Error::NotImplemented) => false,
        },
{
    let module = match compile::<M, C, L, FC>(buffer_source, compiler) {
        Ok(module) => module,
        Err(e) => {
            return Err(e);
        },
    };
    match linker(&module) {
        Ok(instance) => Ok(ResultObject::new(module, instance)),
        Err(e) => Err(Error::LinkError(e)),
    }
}

/// Instantiating from a streamed source is declared and not implemented:
/// every call reports so.
pub fn instantiate_streaming<M, I, Imports, C, L>(
    _buffer_source: Vec<u8>,
    _import_object: Imports,
) -> (result: Result<ResultObject<M, I>, Error<C, L>>)
    ensures
        result is Err,
        result->Err_0 is NotImplemented,
{
    Err(Error::NotImplemented)
}

} // verus!
