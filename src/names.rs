use core::cmp::Ordering;
use vstd::prelude::*;
use vstd::std_specs::cmp::{PartialEqSpec, PartialOrdSpec};
use vstd::string::*;

verus! {

/// Lexicographic order on texts, character by character (by code point);
/// a proper prefix comes before the longer text.
///
/// For UTF-8 text this is the same order as comparing the encoded bytes,
/// which is how `String` orders itself.
pub open spec fn text_cmp(a: Seq<char>, b: Seq<char>) -> Ordering
    decreases a.len(),
{
    if a.len() == 0 {
        if b.len() == 0 {
            Ordering::Equal
        } else {
            Ordering::Less
        }
    } else if b.len() == 0 {
        Ordering::Greater
    } else if (a[0] as int) < (b[0] as int) {
        Ordering::Less
    } else if (a[0] as int) > (b[0] as int) {
        Ordering::Greater
    } else {
        text_cmp(a.drop_first(), b.drop_first())
    }
}

/// Every text compares equal to itself, and only to itself.
pub proof fn lemma_text_cmp_equal(a: Seq<char>, b: Seq<char>)
    ensures
        (text_cmp(a, b) == Ordering::Equal) <==> (a == b),
    decreases a.len(),
{
    if a.len() > 0 && b.len() > 0 && a[0] == b[0] {
        lemma_text_cmp_equal(a.drop_first(), b.drop_first());
        if a.drop_first() == b.drop_first() {
            assert(a =~= seq![a[0]] + a.drop_first());
            assert(b =~= seq![b[0]] + b.drop_first());
        }
    } else if a.len() > 0 && b.len() > 0 {
        assert((a[0] as int) != (b[0] as int));
    } else if a.len() == 0 && b.len() == 0 {
        assert(a =~= b);
    }
}

/// Compares two texts in the order given by [`text_cmp`].
pub fn compare_text(a: &str, b: &str) -> (r: Ordering)
    ensures
        r == text_cmp(a@, b@),
{
    let la = a.unicode_len();
    let lb = b.unicode_len();
    let mut i: usize = 0;
    proof {
        assert(a@.skip(0) =~= a@);
        assert(b@.skip(0) =~= b@);
    }
    while i < la && i < lb
        invariant
            la == a@.len(),
            lb == b@.len(),
            i <= la,
            i <= lb,
            text_cmp(a@, b@) == text_cmp(a@.skip(i as int), b@.skip(i as int)),
        decreases la - i,
    {
        let ca = a.get_char(i);
        let cb = b.get_char(i);
        if (ca as u32) < (cb as u32) {
            return Ordering::Less;
        }
        if (ca as u32) > (cb as u32) {
            return Ordering::Greater;
        }
        proof {
            assert(a@.skip(i as int).drop_first() =~= a@.skip(i as int + 1));
            assert(b@.skip(i as int).drop_first() =~= b@.skip(i as int + 1));
        }
        i = i + 1;
    }
    if i < la {
        Ordering::Greater
    } else if i < lb {
        Ordering::Less
    } else {
        Ordering::Equal
    }
}

/// The name of a workflow, as shown on a repository's list of workflows.
///
/// The text is kept verbatim: no trimming, case folding or validation.
#[derive(Clone, Eq, Ord, Hash, Debug)]
pub struct WorkflowName(String);

impl View for WorkflowName {
    type V = Seq<char>;

    closed spec fn view(&self) -> Seq<char> {
        self.0@
    }
}

impl WorkflowName {
    /// Makes a name holding exactly `name`.
    pub fn new(name: &str) -> (r: Self)
        ensures
            r@ == name@,
    {
        WorkflowName(name.to_owned())
    }

    /// The wrapped text.
    pub fn get(&self) -> (r: &str)
        ensures
            r@ == self@,
    {
        self.0.as_str()
    }

    /// The text shown for this name: exactly the wrapped text.
    pub fn to_string(&self) -> (r: String)
        ensures
            r@ == self@,
    {
        self.0.as_str().to_owned()
    }
}

impl PartialEq for WorkflowName {
    fn eq(&self, other: &WorkflowName) -> (r: bool) {
        self.0 == other.0
    }
}

impl vstd::std_specs::cmp::PartialEqSpecImpl for WorkflowName {
    open spec fn obeys_eq_spec() -> bool {
        true
    }

    open spec fn eq_spec(&self, other: &WorkflowName) -> bool {
        self@ == other@
    }
}

impl PartialOrd for WorkflowName {
    fn partial_cmp(&self, other: &WorkflowName) -> (r: Option<Ordering>) {
        Some(compare_text(self.0.as_str(), other.0.as_str()))
    }
}

impl vstd::std_specs::cmp::PartialOrdSpecImpl for WorkflowName {
    open spec fn obeys_partial_cmp_spec() -> bool {
        true
    }

    open spec fn partial_cmp_spec(&self, other: &WorkflowName) -> Option<Ordering> {
        Some(text_cmp(self@, other@))
    }
}

impl From<String> for WorkflowName {
    fn from(name: String) -> (r: WorkflowName)
        ensures
            r@ == name@,
    {
        WorkflowName(name)
    }
}

impl vstd::std_specs::convert::FromSpecImpl<String> for WorkflowName {
    open spec fn obeys_from_spec() -> bool {
        true
    }

    closed spec fn from_spec(name: String) -> WorkflowName {
        WorkflowName(name)
    }
}

impl From<&str> for WorkflowName {
    fn from(name: &str) -> (r: WorkflowName)
        ensures
            r@ == name@,
    {
        WorkflowName::new(name)
    }
}

impl vstd::std_specs::convert::FromSpecImpl<&str> for WorkflowName {
    /// The copied `String` is not pinned down by its characters, so no single
    /// value can stand as `from_spec`; what the result holds is stated by the
    /// `ensures` of `from` instead.
    open spec fn obeys_from_spec() -> bool {
        false
    }

    closed spec fn from_spec(name: &str) -> WorkflowName {
        choose|r: WorkflowName| r@ == name@
    }
}


/// The name given to each run of a workflow, as shown on a repository's
/// list of workflow runs. It is a distinct type from [`WorkflowName`].
///
/// The text is kept verbatim: no trimming, case folding or validation.
#[derive(Clone, Eq, Ord, Hash, Debug)]
pub struct WorkflowRunName(String);

impl View for WorkflowRunName {
    type V = Seq<char>;

    closed spec fn view(&self) -> Seq<char> {
        self.0@
    }
}

impl WorkflowRunName {
    /// Makes a name holding exactly `name`.
    pub fn new(name: &str) -> (r: Self)
        ensures
            r@ == name@,
    {
        WorkflowRunName(name.to_owned())
    }

    /// The wrapped text.
    pub fn get(&self) -> (r: &str)
        ensures
            r@ == self@,
    {
        self.0.as_str()
    }

    /// The text shown for this name: exactly the wrapped text.
    pub fn to_string(&self) -> (r: String)
        ensures
            r@ == self@,
    {
        self.0.as_str().to_owned()
    }
}

impl PartialEq for WorkflowRunName {
    fn eq(&self, other: &WorkflowRunName) -> (r: bool) {
        self.0 == other.0
    }
}

impl vstd::std_specs::cmp::PartialEqSpecImpl for WorkflowRunName {
    open spec fn obeys_eq_spec() -> bool {
        true
    }

    open spec fn eq_spec(&self, other: &WorkflowRunName) -> bool {
        self@ == other@
    }
}

impl PartialOrd for WorkflowRunName {
    fn partial_cmp(&self, other: &WorkflowRunName) -> (r: Option<Ordering>) {
        Some(compare_text(self.0.as_str(), other.0.as_str()))
    }
}

impl vstd::std_specs::cmp::PartialOrdSpecImpl for WorkflowRunName {
    open spec fn obeys_partial_cmp_spec() -> bool {
        true
    }

    open spec fn partial_cmp_spec(&self, other: &WorkflowRunName) -> Option<Ordering> {
        Some(text_cmp(self@, other@))
    }
}

impl From<String> for WorkflowRunName {
    fn from(name: String) -> (r: WorkflowRunName)
        ensures
            r@ == name@,
    {
        WorkflowRunName(name)
    }
}

impl vstd::std_specs::convert::FromSpecImpl<String> for WorkflowRunName {
    open spec fn obeys_from_spec() -> bool {
        true
    }

    closed spec fn from_spec(name: String) -> WorkflowRunName {
        WorkflowRunName(name)
    }
}

impl From<&str> for WorkflowRunName {
    fn from(name: &str) -> (r: WorkflowRunName)
        ensures
            r@ == name@,
    {
        WorkflowRunName::new(name)
    }
}

impl vstd::std_specs::convert::FromSpecImpl<&str> for WorkflowRunName {
    /// The copied `String` is not pinned down by its characters, so no single
    /// value can stand as `from_spec`; what the result holds is stated by the
    /// `ensures` of `from` instead.
    open spec fn obeys_from_spec() -> bool {
        false
    }

    closed spec fn from_spec(name: &str) -> WorkflowRunName {
        choose|r: WorkflowRunName| r@ == name@
    }
}

/// Equal workflow names compare as `Equal`, and names that compare as `Equal`
/// are equal.
pub proof fn lemma_name_eq_matches_order(a: WorkflowName, b: WorkflowName)
    ensures
        a.eq_spec(&b) <==> a.partial_cmp_spec(&b) == Some(Ordering::Equal),
{
    lemma_text_cmp_equal(a@, b@);
}

/// Equal run-names compare as `Equal`, and run-names that compare as `Equal`
/// are equal.
pub proof fn lemma_run_name_eq_matches_order(a: WorkflowRunName, b: WorkflowRunName)
    ensures
        a.eq_spec(&b) <==> a.partial_cmp_spec(&b) == Some(Ordering::Equal),
{
    lemma_text_cmp_equal(a@, b@);
}

} // verus!
