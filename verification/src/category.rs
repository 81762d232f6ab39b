//! The ten outcome categories and the kind of result each one stands for.

use crate::text::str_eq;
use vstd::prelude::*;

verus! {

/// What a crate's outcome amounts to, without the diagnostic text.
#[derive(Clone, Copy, Debug, PartialEq, Eq, Structural)]
pub enum ResultKind {
    Success,
    TestFail,
    TestSkipped,
    BuildFail,
}

/// One of the ten recognized outcome buckets.
#[derive(Clone, Copy, Debug, PartialEq, Eq, Structural)]
pub enum Category {
    Fixed,
    TestPass,
    SpuriousFixed,
    Broken,
    BuildFail,
    Error,
    Regressed,
    SpuriousRegressed,
    TestFail,
    TestSkipped,
}

impl Category {
    /// The directory name that stands for this category.
    pub open spec fn name(self) -> Seq<char> {
        match self {
            Category::Fixed => "fixed"@,
            Category::TestPass => "test-pass"@,
            Category::SpuriousFixed => "spurious-fixed"@,
            Category::Broken => "broken"@,
            Category::BuildFail => "build-fail"@,
            Category::Error => "error"@,
            Category::Regressed => "regressed"@,
            Category::SpuriousRegressed => "spurious-regressed"@,
            Category::TestFail => "test-fail"@,
            Category::TestSkipped => "test-skipped"@,
        }
    }

    /// The category that a directory name stands for, if it is one of the ten.
    pub open spec fn named(name: Seq<char>) -> Option<Category> {
        if name == "fixed"@ {
            Some(Category::Fixed)
        } else if name == "test-pass"@ {
            Some(Category::TestPass)
        } else if name == "spurious-fixed"@ {
            Some(Category::SpuriousFixed)
        } else if name == "broken"@ {
            Some(Category::Broken)
        } else if name == "build-fail"@ {
            Some(Category::BuildFail)
        } else if name == "error"@ {
            Some(Category::Error)
        } else if name == "regressed"@ {
            Some(Category::Regressed)
        } else if name == "spurious-regressed"@ {
            Some(Category::SpuriousRegressed)
        } else if name == "test-fail"@ {
            Some(Category::TestFail)
        } else if name == "test-skipped"@ {
            Some(Category::TestSkipped)
        } else {
            None
        }
    }

    /// The kind of result that crates in this category get.
    pub open spec fn spec_kind(self) -> ResultKind {
        match self {
            Category::Fixed | Category::TestPass | Category::SpuriousFixed => ResultKind::Success,
            Category::Broken
            | Category::BuildFail
            | Category::Error
            | Category::Regressed
            | Category::SpuriousRegressed => ResultKind::BuildFail,
            Category::TestFail => ResultKind::TestFail,
            Category::TestSkipped => ResultKind::TestSkipped,
        }
    }

    /// Recognizes a directory name. Any name outside the ten gives `None`.
    pub fn from_name(name: &str) -> (category: Option<Category>)
        ensures
            category == Category::named(name@),
    {
        if str_eq(name, "fixed") {
            Some(Category::Fixed)
        } else if str_eq(name, "test-pass") {
            Some(Category::TestPass)
        } else if str_eq(name, "spurious-fixed") {
            Some(Category::SpuriousFixed)
        } else if str_eq(name, "broken") {
            Some(Category::Broken)
        } else if str_eq(name, "build-fail") {
            Some(Category::BuildFail)
        } else if str_eq(name, "error") {
            Some(Category::Error)
        } else if str_eq(name, "regressed") {
            Some(Category::Regressed)
        } else if str_eq(name, "spurious-regressed") {
            Some(Category::SpuriousRegressed)
        } else if str_eq(name, "test-fail") {
            Some(Category::TestFail)
        } else if str_eq(name, "test-skipped") {
            Some(Category::TestSkipped)
        } else {
            None
        }
    }

    /// The directory name of this category.
    pub fn as_str(self) -> (name: &'static str)
        ensures
            name@ == self.name(),
    {
        match self {
            Category::Fixed => "fixed",
            Category::TestPass => "test-pass",
            Category::SpuriousFixed => "spurious-fixed",
            Category::Broken => "broken",
            Category::BuildFail => "build-fail",
            Category::Error => "error",
            Category::Regressed => "regressed",
            Category::SpuriousRegressed => "spurious-regressed",
            Category::TestFail => "test-fail",
            Category::TestSkipped => "test-skipped",
        }
    }

    /// The kind of result that crates in this category get.
    #[verifier::when_used_as_spec(spec_kind)]
    pub fn kind(self) -> (kind: ResultKind)
        ensures
            kind == self.spec_kind(),
    {
        match self {
            Category::Fixed | Category::TestPass | Category::SpuriousFixed => ResultKind::Success,
            Category::Broken
            | Category::BuildFail
            | Category::Error
            | Category::Regressed
            | Category::SpuriousRegressed => ResultKind::BuildFail,
            Category::TestFail => ResultKind::TestFail,
            Category::TestSkipped => ResultKind::TestSkipped,
        }
    }
}

/// The ten names are pairwise distinct: each category is recognized by its
/// own name.
pub proof fn lemma_name_is_recognized(category: Category)
    ensures
        Category::named(category.name()) == Some(category),
{
    reveal_strlit("fixed");
    reveal_strlit("test-pass");
    reveal_strlit("spurious-fixed");
    reveal_strlit("broken");
    reveal_strlit("build-fail");
    reveal_strlit("error");
    reveal_strlit("regressed");
    reveal_strlit("spurious-regressed");
    reveal_strlit("test-fail");
    reveal_strlit("test-skipped");
    assert("fixed"@.len() == 5 && "error"@.len() == 5 && "broken"@.len() == 6);
    assert("test-pass"@.len() == 9 && "regressed"@.len() == 9 && "test-fail"@.len() == 9);
    assert("build-fail"@.len() == 10 && "test-skipped"@.len() == 12);
    assert("spurious-fixed"@.len() == 14 && "spurious-regressed"@.len() == 18);
    // Names of equal length differ in their first or sixth character.
    assert("fixed"@[0] != "error"@[0]);
    assert("test-pass"@[0] != "regressed"@[0]);
    assert("test-fail"@[0] != "regressed"@[0]);
    assert("test-pass"@[5] != "test-fail"@[5]);
}

/// A name is recognized as a category only if it is that category's name.
pub proof fn lemma_recognized_has_name(name: Seq<char>, category: Category)
    requires
        Category::named(name) == Some(category),
    ensures
        category.name() == name,
{
}

} // verus!
