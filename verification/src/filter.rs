//! Filename filters: what a caller configures and what the toolkit is given.

use vstd::prelude::*;

verus! {

/// A labelled group of file extensions, as the caller supplies it.
#[derive(Clone, Debug)]
pub struct Filter {
    pub name: String,
    pub extensions: Vec<String>,
}

/// The configuration of one dialog invocation.
#[derive(Clone, Debug)]
pub struct DialogOptions {
    pub filters: Vec<Filter>,
}

/// One filter as the toolkit receives it: a label and one glob pattern per
/// extension, every text closed by a NUL character.
#[derive(Clone, Debug)]
pub struct FilterGroup {
    pub name: String,
    pub patterns: Vec<String>,
}

/// A text followed by the NUL character that ends it for the toolkit.
pub open spec fn nul_terminated(text: Seq<char>) -> Seq<char> {
    text + seq!['\0']
}

/// The glob pattern that selects files with the given extension.
pub open spec fn pattern_for(extension: Seq<char>) -> Seq<char> {
    seq!['*', '.'] + extension
}

impl FilterGroup {
    /// This group is exactly what `filter` asks for: the same label, and for
    /// each extension, in order, its pattern.
    pub open spec fn registers(&self, filter: &Filter) -> bool {
        &&& self.name@ == nul_terminated(filter.name@)
        &&& self.patterns@.len() == filter.extensions@.len()
        &&& forall|j: int|
            0 <= j < filter.extensions@.len() ==> (#[trigger] self.patterns@[j])@
                == nul_terminated(pattern_for(filter.extensions@[j]@))
    }
}

/// The groups are exactly what the filters ask for, one group per filter and
/// in the same order.
pub open spec fn groups_register(groups: Seq<FilterGroup>, filters: Seq<Filter>) -> bool {
    &&& groups.len() == filters.len()
    &&& forall|i: int| 0 <= i < filters.len() ==> (#[trigger] groups[i]).registers(&filters[i])
}

impl DialogOptions {
    /// Options that offer no filter.
    pub fn new() -> (options: DialogOptions)
        ensures
            options.filters@.len() == 0,
    {
        DialogOptions { filters: Vec::new() }
    }
}

/// The text with a closing NUL character.
pub fn native_text(text: &str) -> (out: String)
    ensures
        out@ == nul_terminated(text@),
{
    let mut out = String::from_str(text);
    out.append("\0");
    proof {
        reveal_strlit("\0");
        assert("\0"@ =~= seq!['\0']);
    }
    out
}

/// The NUL-terminated glob pattern for one extension.
pub fn native_pattern(extension: &str) -> (out: String)
    ensures
        out@ == nul_terminated(pattern_for(extension@)),
{
    let mut out = String::from_str("*.");
    out.append(extension);
    out.append("\0");
    proof {
        reveal_strlit("*.");
        reveal_strlit("\0");
        assert("*."@ =~= seq!['*', '.']);
        assert("\0"@ =~= seq!['\0']);
    }
    out
}

/// What the toolkit is given for one filter.
pub fn filter_group(filter: &Filter) -> (group: FilterGroup)
    ensures
        group.registers(filter),
{
    let name = native_text(filter.name.as_str());
    let mut patterns: Vec<String> = Vec::new();
    let mut j: usize = 0;
    while j < filter.extensions.len()
        invariant
            0 <= j <= filter.extensions@.len(),
            patterns@.len() == j,
            forall|k: int|
                0 <= k < j ==> (#[trigger] patterns@[k])@ == nul_terminated(
                    pattern_for(filter.extensions@[k]@),
                ),
        decreases filter.extensions@.len() - j,
    {
        let pattern = native_pattern(filter.extensions[j].as_str());
        patterns.push(pattern);
        j += 1;
    }
    FilterGroup { name, patterns }
}

/// The filter groups to attach to a dialog: one per configured filter, in the
/// order supplied, each with its label and one `*.<extension>` pattern per
/// extension.
pub fn add_filters(filters: &Vec<Filter>) -> (groups: Vec<FilterGroup>)
    ensures
        groups_register(groups@, filters@),
{
    let mut groups: Vec<FilterGroup> = Vec::new();
    let mut i: usize = 0;
    while i < filters.len()
        invariant
            0 <= i <= filters@.len(),
            groups@.len() == i,
            forall|k: int| 0 <= k < i ==> (#[trigger] groups@[k]).registers(&filters@[k]),
        decreases filters@.len() - i,
    {
        let group = filter_group(&filters[i]);
        groups.push(group);
        i += 1;
    }
    groups
}

} // verus!
