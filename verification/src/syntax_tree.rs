use vstd::prelude::*;

verus! {

/// A node kind of the dynamic-SQL syntax tree that this model carries.
#[derive(Debug)]
pub enum NodeType {
    ForEach(ForEachNode),
    When(WhenNode),
}

/// A loop node: render the children once per element of `collection`,
/// binding `index` and `item`.
#[derive(Debug)]
pub struct ForEachNode {
    pub childs: Vec<NodeType>,
    pub collection: String,
    pub index: String,
    pub item: String,
}

/// A guarded node: render the children when `test` holds.
#[derive(Debug)]
pub struct WhenNode {
    pub childs: Vec<NodeType>,
    pub test: String,
}

/// Every node kind names the tag it is written as.
pub trait Name {
    spec fn spec_name() -> Seq<char>;

    fn name() -> (r: &'static str)
        ensures
            r@ == Self::spec_name(),
    ;
}

impl Name for ForEachNode {
    open spec fn spec_name() -> Seq<char> {
        "for"@
    }

    fn name() -> &'static str {
        "for"
    }
}

impl Name for WhenNode {
    open spec fn spec_name() -> Seq<char> {
        "when"@
    }

    fn name() -> &'static str {
        "when"
    }
}

} // verus!
