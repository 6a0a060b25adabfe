use storage::harness::Bencher;
use storage::harness::NamePadding;
use storage::harness::ShouldPanic;
use storage::harness::TDynBenchFn;
use storage::harness::TDynTestFn;
use storage::harness::TestDesc;
use storage::harness::TestDescAndFn;
use storage::harness::TestFn;
use storage::harness::TestId;
use storage::harness::TestName;
use storage::harness::TestType;

struct NoopTest;

impl TDynTestFn for NoopTest {
    fn run(&self) {}
}

struct NoopBench;

impl TDynBenchFn for NoopBench {
    fn run(&self, harness: &mut Bencher) {
        harness.bytes = 1;
    }
}

fn plain_desc(name: TestName) -> TestDesc {
    TestDesc {
        name,
        ignore: false,
        should_panic: ShouldPanic::No,
        compile_fail: false,
        no_run: false,
        test_type: TestType::UnitTest,
    }
}

#[test]
fn name_as_slice() {
    assert_eq!(TestName::StaticTestName("a::b").as_slice(), "a::b");
    assert_eq!(TestName::DynTestName(String::from("dyn")).as_slice(), "dyn");
    assert_eq!(
        TestName::AlignedTestName(String::from("al"), NamePadding::PadOnRight).as_slice(),
        "al"
    );
}

#[test]
fn name_padding() {
    assert_eq!(TestName::StaticTestName("s").padding(), NamePadding::PadNone);
    assert_eq!(TestName::DynTestName(String::from("d")).padding(), NamePadding::PadNone);
    assert_eq!(
        TestName::AlignedTestName(String::from("a"), NamePadding::PadOnRight).padding(),
        NamePadding::PadOnRight
    );
}

#[test]
fn name_with_padding() {
    let aligned = TestName::StaticTestName("s").with_padding(NamePadding::PadOnRight);
    match aligned {
        TestName::AlignedTestName(name, padding) => {
            assert_eq!(name, "s");
            assert_eq!(padding, NamePadding::PadOnRight);
        }
        _ => panic!("expected an aligned name"),
    }
}

#[test]
fn test_fn_padding() {
    assert_eq!(TestFn::StaticTestFn(Box::new(NoopTest)).padding(), NamePadding::PadNone);
    assert_eq!(TestFn::DynTestFn(Box::new(NoopTest)).padding(), NamePadding::PadNone);
    assert_eq!(TestFn::StaticBenchFn(Box::new(NoopBench)).padding(), NamePadding::PadOnRight);
    assert_eq!(TestFn::DynBenchFn(Box::new(NoopBench)).padding(), NamePadding::PadOnRight);
}

#[test]
fn padded_name_pads_on_right() {
    let desc = plain_desc(TestName::StaticTestName("abc"));
    assert_eq!(desc.padded_name(6, NamePadding::PadOnRight), "abc   ");
    assert_eq!(desc.padded_name(6, NamePadding::PadNone), "abc");
    assert_eq!(desc.padded_name(2, NamePadding::PadOnRight), "abc");
}

#[test]
fn test_mode_reports_special_runs() {
    let mut desc = plain_desc(TestName::StaticTestName("t"));
    assert_eq!(desc.test_mode(), None);
    desc.ignore = true;
    assert_eq!(desc.test_mode(), None);
    desc.ignore = false;
    desc.should_panic = ShouldPanic::Yes;
    assert_eq!(desc.test_mode(), Some("should panic"));
    desc.should_panic = ShouldPanic::YesWithMessage("boom");
    assert_eq!(desc.test_mode(), Some("should panic"));
    desc.should_panic = ShouldPanic::No;
    desc.compile_fail = true;
    assert_eq!(desc.test_mode(), Some("compile fail"));
    desc.compile_fail = false;
    desc.no_run = true;
    assert_eq!(desc.test_mode(), Some("compile"));
}

#[test]
fn test_desc_and_fn_holds_both() {
    let t = TestDescAndFn {
        desc: plain_desc(TestName::DynTestName(String::from("d"))),
        testfn: TestFn::DynTestFn(Box::new(NoopTest)),
    };
    assert_eq!(t.desc.name.as_slice(), "d");
    assert_eq!(t.testfn.padding(), NamePadding::PadNone);
    let _id = TestId(7);
}
