//! Common types used by the test harness: test names, the functions
//! that run tests and benchmarks, and per-test metadata.

use vstd::prelude::*;
use vstd::string::StringSliceAdditionalSpecFns;
use vstd::string::StringExecFns;
use vstd::utf8::encode_utf8;

verus! {

/// Type of the test according to the usual project-layout conventions.
#[derive(Copy, Clone, Debug, PartialEq, Eq, Hash, Structural)]
pub enum TestType {
    /// Unit tests are expected to be in the `src` folder of the crate.
    UnitTest,
    /// Integration-style tests are expected to be in the `tests`
    /// folder of the crate.
    IntegrationTest,
    /// Documentation tests are extracted from documentation comments,
    /// so they are a different type of test.
    DocTest,
    /// Tests for sources that do not follow the project layout
    /// convention.
    Unknown,
}

/// How a test's printed name is padded in aligned output.
#[derive(Clone, Copy, PartialEq, Eq, Hash, Debug, Structural)]
pub enum NamePadding {
    /// The name is printed as it is.
    PadNone,
    /// The name is padded on the right up to the column width.
    PadOnRight,
}

/// Whether a test is expected to panic, optionally with a required
/// message.
#[derive(Clone, Copy, PartialEq, Eq, Debug)]
pub enum ShouldPanic {
    /// The test must complete without panicking.
    No,
    /// The test must panic.
    Yes,
    /// The test must panic with a message containing this string.
    YesWithMessage(&'static str),
}

/// The name of a test. By convention this follows the rules for paths:
/// a series of identifiers separated by double colons, so a runner may
/// arrange the tests hierarchically.
#[derive(Clone, PartialEq, Eq, Hash, Debug)]
pub enum TestName {
    /// A name known at compile time.
    StaticTestName(&'static str),
    /// A name built at run time.
    DynTestName(String),
    /// A name carrying an explicit padding choice for aligned output.
    AlignedTestName(String, NamePadding),
}

impl TestName {
    /// The characters of the name, whichever variant carries it.
    pub open spec fn name_chars(&self) -> Seq<char> {
        match self {
            TestName::StaticTestName(s) => s@,
            TestName::DynTestName(s) => s@,
            TestName::AlignedTestName(s, _) => s@,
        }
    }

    /// The name as a string slice.
    pub fn as_slice(&self) -> (r: &str)
        ensures
            r@ == self.name_chars(),
    {
        match self {
            TestName::StaticTestName(s) => s,
            TestName::DynTestName(s) => s.as_str(),
            TestName::AlignedTestName(s, _) => s.as_str(),
        }
    }

    /// The padding this name asks for: only an aligned name carries
    /// one.
    pub fn padding(&self) -> (p: NamePadding)
        ensures
            p == (match self {
                TestName::AlignedTestName(_, q) => *q,
                _ => NamePadding::PadNone,
            }),
    {
        match self {
            TestName::AlignedTestName(_, p) => *p,
            _ => NamePadding::PadNone,
        }
    }

    /// The same name with an explicit padding choice.
    pub fn with_padding(&self, padding: NamePadding) -> (r: TestName)
        ensures
            r matches TestName::AlignedTestName(s, p) && s@ == self.name_chars() && p == padding,
    {
        let name: String = match self {
            TestName::StaticTestName(s) => String::from_str(s),
            TestName::DynTestName(s) => s.clone(),
            TestName::AlignedTestName(s, _) => s.clone(),
        };
        TestName::AlignedTestName(name, padding)
    }
}

/// The state handed to a benchmark function while it runs.
pub struct Bencher {
    /// Bytes processed per iteration, for throughput reporting.
    pub bytes: u64,
}

/// A benchmark function behind dynamic dispatch.
pub trait TDynBenchFn: Send {
    /// Runs the benchmark against the harness state.
    fn run(&self, harness: &mut Bencher);
}

/// A test function behind dynamic dispatch.
pub trait TDynTestFn: Send {
    /// Runs the test; the test fails if this panics.
    fn run(&self);
}

/// A function that runs a test. If the function returns the test
/// succeeds; if it panics the test fails. Every variant dispatches
/// dynamically; the static and dynamic variants are kept apart so a
/// runner can pad and report them differently.
pub enum TestFn {
    /// A test function known at compile time.
    StaticTestFn(Box<dyn TDynTestFn>),
    /// A benchmark function known at compile time.
    StaticBenchFn(Box<dyn TDynBenchFn>),
    /// A test built at run time.
    DynTestFn(Box<dyn TDynTestFn>),
    /// A benchmark built at run time.
    DynBenchFn(Box<dyn TDynBenchFn>),
}

impl TestFn {
    /// The padding this kind of test asks for in aligned output:
    /// benchmarks are padded on the right, tests are not.
    pub fn padding(&self) -> (p: NamePadding)
        ensures
            self is StaticTestFn || self is DynTestFn ==> p == NamePadding::PadNone,
            self is StaticBenchFn || self is DynBenchFn ==> p == NamePadding::PadOnRight,
    {
        match self {
            TestFn::StaticTestFn(..) => NamePadding::PadNone,
            TestFn::StaticBenchFn(..) => NamePadding::PadOnRight,
            TestFn::DynTestFn(..) => NamePadding::PadNone,
            TestFn::DynBenchFn(..) => NamePadding::PadOnRight,
        }
    }
}

/// A unique integer associated with each test.
#[derive(Clone, Copy, Debug, Eq, Hash, PartialEq, Structural)]
pub struct TestId(pub usize);

/// The definition of a single test. A test runner runs a list of
/// these.
#[derive(Clone, Debug)]
pub struct TestDesc {
    /// The test's name.
    pub name: TestName,
    /// Whether the test is skipped.
    pub ignore: bool,
    /// Whether the test is expected to panic.
    pub should_panic: ShouldPanic,
    /// Whether the test is only expected to fail to compile.
    pub compile_fail: bool,
    /// Whether the test is compiled but not run.
    pub no_run: bool,
    /// The kind of test, by project layout.
    pub test_type: TestType,
}

impl TestDesc {
    /// The test's name padded on the right up to `column_count` bytes
    /// when `align` asks for it, and unpadded otherwise.
    pub fn padded_name(&self, column_count: usize, align: NamePadding) -> (r: String)
        ensures
            ({
                let chars = self.name.name_chars();
                let width = encode_utf8(chars).len() as usize;
                let fill: int = if column_count > width {
                    column_count - width
                } else {
                    0
                };
                match align {
                    NamePadding::PadNone => r@ == chars,
                    NamePadding::PadOnRight => r@ == chars + Seq::new(fill as nat, |i: int| ' '),
                }
            }),
    {
        let slice = self.name.as_slice();
        let width = slice.len();
        let mut name = slice.to_owned();
        let fill: usize = if column_count > width {
            column_count - width
        } else {
            0
        };
        match align {
            NamePadding::PadNone => name,
            NamePadding::PadOnRight => {
                let ghost chars = self.name.name_chars();
                proof {
                    assert(name@ =~= chars + Seq::new(0 as nat, |j: int| ' '));
                }
                let mut i: usize = 0;
                while i < fill
                    invariant
                        i <= fill,
                        name@ == chars + Seq::new(i as nat, |j: int| ' '),
                    decreases fill - i,
                {
                    name.append(" ");
                    proof {
                        reveal_strlit(" ");
                        assert(name@ =~= chars + Seq::new((i + 1) as nat, |j: int| ' '));
                    }
                    i = i + 1;
                }
                name
            },
        }
    }

    /// A description of how the test runs, for tests that are neither
    /// skipped nor plainly run: expected to panic, expected to fail to
    /// compile, or compiled without running.
    pub fn test_mode(&self) -> (r: Option<&'static str>)
        ensures
            self.ignore ==> r is None,
            !self.ignore && (self.should_panic is Yes || self.should_panic is YesWithMessage)
                ==> (r matches Some(s) && s@ == "should panic"@),
            !self.ignore && self.should_panic is No && self.compile_fail ==> (r matches Some(s)
                && s@ == "compile fail"@),
            !self.ignore && self.should_panic is No && !self.compile_fail && self.no_run
                ==> (r matches Some(s) && s@ == "compile"@),
            !self.ignore && self.should_panic is No && !self.compile_fail && !self.no_run
                ==> r is None,
    {
        if self.ignore {
            return None;
        }
        match self.should_panic {
            ShouldPanic::Yes => { return Some("should panic") },
            ShouldPanic::YesWithMessage(_) => { return Some("should panic") },
            ShouldPanic::No => {},
        }
        if self.compile_fail {
            return Some("compile fail");
        }
        if self.no_run {
            return Some("compile");
        }
        None
    }
}

/// A test together with the function that runs it.
pub struct TestDescAndFn {
    /// The test's metadata.
    pub desc: TestDesc,
    /// The function that runs it.
    pub testfn: TestFn,
}

} // verus!
