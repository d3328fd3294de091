use vstd::prelude::*;
use crate::error::ApplyError;
use crate::probe::{can_execute, can_read_file, file_usable, info_of, reports, FsView};

verus! {

/// How a requested side effect is carried out.
#[derive(Clone, Copy, Debug, PartialEq, Eq, Structural)]
pub enum Mode {
    /// Perform the effect for real.
    Active,
    /// Only report what would be done.
    Passive,
    /// Ask the operator before each effect.
    Interactive,
}

/// A script or text source: a file on disk, or text held in memory.
#[derive(Debug, PartialEq, Eq)]
pub enum VirtualFile {
    FsPath(String),
    InMemory(String),
}

/// The mode chosen by command-line flags: active wins over interactive, and
/// passive is the default.
pub fn get_mode(active: bool, _passive: bool, interactive: bool) -> (r: Mode)
    ensures
        r == if active {
            Mode::Active
        } else if interactive {
            Mode::Interactive
        } else {
            Mode::Passive
        },
{
    if active {
        Mode::Active
    } else if interactive {
        Mode::Interactive
    } else {
        Mode::Passive
    }
}

impl VirtualFile {
    /// An in-memory shell script.
    pub fn in_memory_shell(source: String) -> (r: VirtualFile)
        ensures
            r == VirtualFile::InMemory(source),
    {
        VirtualFile::InMemory(source)
    }

    /// An equal copy.
    pub fn duplicate(&self) -> (r: VirtualFile)
        ensures
            r == *self,
    {
        match self {
            VirtualFile::FsPath(p) => VirtualFile::FsPath(p.clone()),
            VirtualFile::InMemory(s) => VirtualFile::InMemory(s.clone()),
        }
    }

    /// How this source becomes a file that can be run, `n` naming a
    /// temporary file when one is needed: a path on disk must be an
    /// executable file; text gets a `#!/bin/sh` line and a temporary file.
    pub fn executable_with(&self, fs: &FsView, n: u32) -> (r: Result<Materialized, ApplyError>)
        ensures
            match self {
                VirtualFile::FsPath(p) => {
                    &&& reports(
                        match r {
                            Ok(_) => Ok(()),
                            Err(e) => Err(e),
                        },
                        file_usable(fs@, p@, info_of(fs@, p@) matches Some(i) && i.executable),
                    )
                    &&& r is Ok ==> r == Ok::<Materialized, ApplyError>(Materialized::Existing(*p))
                },
                VirtualFile::InMemory(s) => r matches Ok(Materialized::Temporary { path, contents })
                    && path@ == decimal(n as nat) + script_suffix() && contents@ == shebang() + s@,
            },
    {
        match self {
            VirtualFile::FsPath(p) => match can_execute(fs, p.as_str()) {
                Ok(()) => Ok(Materialized::Existing(p.clone())),
                Err(e) => Err(e),
            },
            VirtualFile::InMemory(s) => {
                let mut path = decimal_string(n);
                proof { reveal_strlit(".tmp.sh"); }
                path.append(".tmp.sh");
                proof { reveal_strlit("#!/bin/sh\n"); }
                let mut contents = "#!/bin/sh\n".to_owned();
                contents.append(s.as_str());
                Ok(Materialized::Temporary { path, contents })
            },
        }
    }

    /// `executable_with` under a freshly drawn random number.
    pub fn as_executable(&self, fs: &FsView) -> (r: Result<Materialized, ApplyError>)
        ensures
            match self {
                VirtualFile::FsPath(p) => {
                    &&& reports(
                        match r {
                            Ok(_) => Ok(()),
                            Err(e) => Err(e),
                        },
                        file_usable(fs@, p@, info_of(fs@, p@) matches Some(i) && i.executable),
                    )
                    &&& r is Ok ==> r == Ok::<Materialized, ApplyError>(Materialized::Existing(*p))
                },
                VirtualFile::InMemory(s) => r matches Ok(Materialized::Temporary { path, contents })
                    && contents@ == shebang() + s@,
            },
    {
        let n = random_number();
        self.executable_with(fs, n)
    }

    /// How this source becomes a file that can be read, `n` naming a
    /// temporary file when one is needed.
    pub fn readable_with(&self, fs: &FsView, n: u32) -> (r: Result<Materialized, ApplyError>)
        ensures
            match self {
                VirtualFile::FsPath(p) => {
                    &&& reports(
                        match r {
                            Ok(_) => Ok(()),
                            Err(e) => Err(e),
                        },
                        file_usable(fs@, p@, info_of(fs@, p@) matches Some(i) && i.readable),
                    )
                    &&& r is Ok ==> r == Ok::<Materialized, ApplyError>(Materialized::Existing(*p))
                },
                VirtualFile::InMemory(s) => r matches Ok(Materialized::Temporary { path, contents })
                    && path@ == seq!['r'] + decimal(n as nat) + readable_suffix() && contents@ == s@,
            },
    {
        match self {
            VirtualFile::FsPath(p) => match can_read_file(fs, p.as_str()) {
                Ok(()) => Ok(Materialized::Existing(p.clone())),
                Err(e) => Err(e),
            },
            VirtualFile::InMemory(s) => {
                proof { reveal_strlit("r"); }
                let mut path = "r".to_owned();
                let digits = decimal_string(n);
                path.append(digits.as_str());
                proof { reveal_strlit(".tmp"); }
                path.append(".tmp");
                assert(path@ =~= seq!['r'] + decimal(n as nat) + readable_suffix());
                Ok(Materialized::Temporary { path, contents: s.clone() })
            },
        }
    }

    /// `readable_with` under a freshly drawn random number.
    pub fn as_readable(&self, fs: &FsView) -> (r: Result<Materialized, ApplyError>)
        ensures
            match self {
                VirtualFile::FsPath(p) => {
                    &&& reports(
                        match r {
                            Ok(_) => Ok(()),
                            Err(e) => Err(e),
                        },
                        file_usable(fs@, p@, info_of(fs@, p@) matches Some(i) && i.readable),
                    )
                    &&& r is Ok ==> r == Ok::<Materialized, ApplyError>(Materialized::Existing(*p))
                },
                VirtualFile::InMemory(s) => r matches Ok(Materialized::Temporary { path, contents })
                    && contents@ == s@,
            },
    {
        let n = random_number();
        self.readable_with(fs, n)
    }
}

/// A source made ready for use: a path that is used as it is, or a temporary
/// file to write with the given contents and to remove after use.
#[derive(Debug, PartialEq, Eq)]
pub enum Materialized {
    Existing(String),
    Temporary { path: String, contents: String },
}

pub open spec fn shebang() -> Seq<char> {
    seq!['#', '!', '/', 'b', 'i', 'n', '/', 's', 'h', '\n']
}

pub open spec fn script_suffix() -> Seq<char> {
    seq!['.', 't', 'm', 'p', '.', 's', 'h']
}

pub open spec fn readable_suffix() -> Seq<char> {
    seq!['.', 't', 'm', 'p']
}

pub open spec fn generated_suffix() -> Seq<char> {
    seq!['.', 'g', 'e', 'n', '.', 't', 'm', 'p']
}

/// Decimal digits of `n`, most significant first, without leading zeros.
pub open spec fn decimal(n: nat) -> Seq<char>
    decreases n,
{
    if n < 10 {
        seq![digit_char(n)]
    } else {
        decimal(n / 10).push(digit_char(n % 10))
    }
}

pub open spec fn digit_char(d: nat) -> char {
    if d == 0 { '0' } else if d == 1 { '1' } else if d == 2 { '2' } else if d == 3 { '3' }
    else if d == 4 { '4' } else if d == 5 { '5' } else if d == 6 { '6' } else if d == 7 { '7' }
    else if d == 8 { '8' } else { '9' }
}

fn digit_str(d: u32) -> (r: &'static str)
    requires
        d < 10,
    ensures
        r@ == seq![digit_char(d as nat)],
{
    proof {
        reveal_strlit("0"); reveal_strlit("1"); reveal_strlit("2"); reveal_strlit("3");
        reveal_strlit("4"); reveal_strlit("5"); reveal_strlit("6"); reveal_strlit("7");
        reveal_strlit("8"); reveal_strlit("9");
    }
    let r = if d == 0 { "0" } else if d == 1 { "1" } else if d == 2 { "2" } else if d == 3 { "3" }
    else if d == 4 { "4" } else if d == 5 { "5" } else if d == 6 { "6" } else if d == 7 { "7" }
    else if d == 8 { "8" } else { "9" };
    assert(r@ =~= seq![digit_char(d as nat)]);
    r
}

/// `n` written in decimal.
pub fn decimal_string(n: u32) -> (r: String)
    ensures
        r@ == decimal(n as nat),
    decreases n,
{
    if n < 10 {
        digit_str(n).to_owned()
    } else {
        let mut r = decimal_string(n / 10);
        r.append(digit_str(n % 10));
        r
    }
}

/// Relies on `rand::random::<u32>`: any number may come back.
#[verifier::external_body]
fn random_number() -> u32 {
    rand::random::<u32>()
}

/// The template a file is generated from.
#[derive(Debug)]
pub struct SrcFile {
    path: VirtualFile,
}

impl SrcFile {
    pub fn new(path: VirtualFile) -> (r: SrcFile)
        ensures
            r.source() == path,
    {
        SrcFile { path }
    }

    pub closed spec fn source(&self) -> VirtualFile {
        self.path
    }

    /// The template's source.
    pub fn virtual_file(&self) -> (r: &VirtualFile)
        ensures
            *r == self.source(),
    {
        &self.path
    }
}

/// The file that a generated candidate may be copied to.
#[derive(Debug)]
pub struct DestFile {
    path: String,
}

impl DestFile {
    pub fn new(p: String) -> (r: DestFile)
        ensures
            r.spec_path() == p@,
    {
        DestFile { path: p }
    }

    pub closed spec fn spec_path(&self) -> Seq<char> {
        self.path@
    }

    pub fn path(&self) -> (r: String)
        ensures
            r@ == self.spec_path(),
    {
        self.path.clone()
    }

    /// Whether the destination exists in the probed view.
    pub fn _exists(&self, fs: &FsView) -> (r: bool)
        ensures
            r == fs@.contains_key(self.spec_path()),
    {
        fs.info(self.path.as_str()).is_some()
    }
}

/// A freshly generated candidate file.
#[derive(Debug)]
pub struct GenFile {
    path: String,
}

impl GenFile {
    /// A candidate named by the random number `n`.
    pub fn with_number(n: u32) -> (r: GenFile)
        ensures
            r.spec_path() == decimal(n as nat) + generated_suffix(),
    {
        let mut path = decimal_string(n);
        proof { reveal_strlit(".gen.tmp"); }
        path.append(".gen.tmp");
        GenFile { path }
    }

    /// A candidate under a fresh random name ending in `.gen.tmp`.
    pub fn new() -> (r: GenFile)
        ensures
            exists|n: nat| r.spec_path() == decimal(n) + generated_suffix(),
    {
        let n = random_number();
        Self::with_number(n)
    }

    pub closed spec fn spec_path(&self) -> Seq<char> {
        self.path@
    }

    pub fn path(&self) -> (r: String)
        ensures
            r@ == self.spec_path(),
    {
        self.path.clone()
    }
}

/// A file ready to run; a temporary one is removed after use.
#[derive(Debug)]
pub struct ExecutableFile {
    path: String,
    is_temp: bool,
}

impl ExecutableFile {
    pub fn new(path: String, is_temp: bool) -> (r: ExecutableFile)
        ensures
            r.spec_path() == path@,
            r.spec_is_temp() == is_temp,
    {
        ExecutableFile { path, is_temp }
    }

    pub closed spec fn spec_path(&self) -> Seq<char> {
        self.path@
    }

    pub closed spec fn spec_is_temp(&self) -> bool {
        self.is_temp
    }

    pub fn path(&self) -> (r: String)
        ensures
            r@ == self.spec_path(),
    {
        self.path.clone()
    }

    /// Whether the file was written for this use and must be removed.
    pub fn is_temp(&self) -> (r: bool)
        ensures
            r == self.spec_is_temp(),
    {
        self.is_temp
    }
}

/// A file ready to read.
#[derive(Debug)]
pub struct ReadableFile {
    path: String,
}

impl ReadableFile {
    pub fn new(path: String) -> (r: ReadableFile)
        ensures
            r.spec_path() == path@,
    {
        ReadableFile { path }
    }

    pub closed spec fn spec_path(&self) -> Seq<char> {
        self.path@
    }

    pub fn path(&self) -> (r: String)
        ensures
            r@ == self.spec_path(),
    {
        self.path.clone()
    }
}

} // verus!
