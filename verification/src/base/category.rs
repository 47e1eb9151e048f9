use vstd::prelude::*;

verus! {

/// The family a rule belongs to.
#[derive(Debug, Clone, Copy, PartialEq, Eq, Structural)]
pub enum Category {
    Readability,
    Consistency,
    Refactor,
    Design,
    Warning,
    Security,
    Architecture,
    Ai,
    Performance,
    Maintainability,
}

/// The lowercase name under which a category is displayed and serialised.
pub open spec fn category_name(c: Category) -> Seq<char> {
    match c {
        Category::Readability => "readability"@,
        Category::Consistency => "consistency"@,
        Category::Refactor => "refactor"@,
        Category::Design => "design"@,
        Category::Warning => "warning"@,
        Category::Security => "security"@,
        Category::Architecture => "architecture"@,
        Category::Ai => "ai"@,
        Category::Performance => "performance"@,
        Category::Maintainability => "maintainability"@,
    }
}

impl Category {
    /// The lowercase display name of the category.
    pub fn as_str(&self) -> (s: &'static str)
        ensures
            s@ == category_name(*self),
    {
        match self {
            Category::Readability => "readability",
            Category::Consistency => "consistency",
            Category::Refactor => "refactor",
            Category::Design => "design",
            Category::Warning => "warning",
            Category::Security => "security",
            Category::Architecture => "architecture",
            Category::Ai => "ai",
            Category::Performance => "performance",
            Category::Maintainability => "maintainability",
        }
    }
}

} // verus!
