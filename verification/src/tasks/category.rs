use vstd::prelude::*;

verus! {

/// A named, colored grouping label. Every task owns its own copy.
#[derive(Debug, Clone)]
pub struct Category {
    pub name: String,
    pub color: String,
}

/// The mathematical value of a [`Category`].
pub struct CategoryView {
    pub name: Seq<char>,
    pub color: Seq<char>,
}

impl View for Category {
    type V = CategoryView;

    open spec fn view(&self) -> CategoryView {
        CategoryView { name: self.name@, color: self.color@ }
    }
}

impl CategoryView {
    /// The category that a freshly created task is filed under.
    pub open spec fn general() -> CategoryView {
        CategoryView { name: "General"@, color: "red"@ }
    }
}

impl Category {
    /// Builds the category that a freshly created task is filed under:
    /// `General`, colored `red`.
    pub fn default() -> (c: Category)
        ensures
            c@ == CategoryView::general(),
    {
        Category { name: "General".to_string(), color: "red".to_string() }
    }
}

} // verus!
