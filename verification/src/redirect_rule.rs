//! The redirect rule and its rendering as an Nginx `location` block.

use vstd::prelude::*;
use vstd::std_specs::cmp::PartialEqSpecImpl;
use vstd::string::StringExecFns;

verus! {

/// What a rule is, mathematically: its two patterns as sequences of characters.
pub struct RuleView {
    pub match_pattern: Seq<char>,
    pub redirect_pattern: Seq<char>,
}

/// A pairing of a location matcher and the path that it redirects to.
#[derive(Debug)]
pub struct RedirectRule {
    match_pattern: String,
    redirect_pattern: String,
}

impl View for RedirectRule {
    type V = RuleView;

    closed spec fn view(&self) -> RuleView {
        RuleView { match_pattern: self.match_pattern@, redirect_pattern: self.redirect_pattern@ }
    }
}

impl DeepView for RedirectRule {
    type V = RuleView;

    open spec fn deep_view(&self) -> RuleView {
        self@
    }
}

impl PartialEq for RedirectRule {
    /// Two rules are equal when both of their patterns are.
    fn eq(&self, other: &Self) -> (res: bool) {
        self.match_pattern == other.match_pattern && self.redirect_pattern
            == other.redirect_pattern
    }
}

impl Eq for RedirectRule {

}

impl PartialEqSpecImpl for RedirectRule {
    open spec fn obeys_eq_spec() -> bool {
        true
    }

    open spec fn eq_spec(&self, other: &Self) -> bool {
        self@ == other@
    }
}

/// The configuration block of a rule: a `location` that matches the match
/// pattern, whatever the case, and answers with a permanent redirect to the
/// redirect pattern. Both patterns stand in it verbatim.
pub open spec fn render(rule: RuleView) -> Seq<char> {
    "location ~* "@ + rule.match_pattern + " {\n"@ + "    return 301 "@ + rule.redirect_pattern
        + ";\n"@ + "}\n"@
}

/// The configuration document of `rules`: the block of each rule, in the
/// order of the rules, with one line feed between a block and the next.
pub open spec fn document(rules: Seq<RuleView>) -> Seq<char>
    decreases rules.len(),
{
    if rules.len() == 0 {
        Seq::empty()
    } else if rules.len() == 1 {
        render(rules[0])
    } else {
        document(rules.drop_last()) + "\n"@ + render(rules.last())
    }
}

/// Where the block of the rule of index `i` begins in the document of
/// `rules`: behind the blocks before it and one line feed after each.
pub open spec fn block_start(rules: Seq<RuleView>, i: int) -> int
    decreases i,
{
    if i <= 0 {
        0
    } else {
        block_start(rules, i - 1) + render(rules[i - 1]).len() + 1
    }
}

/// A block is its five fixed parts and the two patterns: 34 characters
/// more than the patterns hold. The match pattern begins at offset 12, the
/// redirect pattern 18 characters behind its end, and the block ends in
/// a line feed.
pub proof fn lemma_render_shape(rule: RuleView)
    ensures
        render(rule).len() == rule.match_pattern.len() + rule.redirect_pattern.len() + 34,
        render(rule).subrange(0, 12) == "location ~* "@,
        render(rule).subrange(12, 12 + rule.match_pattern.len() as int) == rule.match_pattern,
        render(rule).subrange(
            12 + rule.match_pattern.len() as int,
            30 + rule.match_pattern.len() as int,
        ) == " {\n    return 301 "@,
        render(rule).subrange(
            30 + rule.match_pattern.len() as int,
            30 + rule.match_pattern.len() as int + rule.redirect_pattern.len() as int,
        ) == rule.redirect_pattern,
        render(rule).subrange(render(rule).len() - 4, render(rule).len() as int) == ";\n}\n"@,
        render(rule).last() == '\n',
{
    reveal_strlit("location ~* ");
    reveal_strlit(" {\n");
    reveal_strlit("    return 301 ");
    reveal_strlit(";\n");
    reveal_strlit("}\n");
    reveal_strlit(" {\n    return 301 ");
    reveal_strlit(";\n}\n");
}

/// Two rules whose match patterns hold no line feed render to the same
/// block only if they are the same rule.
pub proof fn lemma_render_injective(a: RuleView, b: RuleView)
    requires
        !a.match_pattern.contains('\n'),
        !b.match_pattern.contains('\n'),
        render(a) == render(b),
    ensures
        a == b,
{
    lemma_render_shape(a);
    lemma_render_shape(b);
    reveal_strlit(" {\n    return 301 ");
    let m = a.match_pattern.len() as int;
    let n = b.match_pattern.len() as int;
    // Two characters behind a match pattern stands a line feed. Were one
    // pattern shorter than the other, its line feed would fall into the
    // longer pattern or onto the " {" behind it.
    assert(render(a)[12 + m + 2] == '\n') by {
        assert(render(a).subrange(12 + m, 30 + m)[2] == '\n');
    }
    assert(render(b)[12 + n + 2] == '\n') by {
        assert(render(b).subrange(12 + n, 30 + n)[2] == '\n');
    }
    if m < n {
        if m + 2 < n {
            assert(b.match_pattern[m + 2] == render(b).subrange(12, 12 + n)[m + 2]);
        } else {
            assert(render(b)[12 + m + 2] == render(b).subrange(12 + n, 30 + n)[m + 2 - n]);
        }
        assert(false);
    }
    if n < m {
        if n + 2 < m {
            assert(a.match_pattern[n + 2] == render(a).subrange(12, 12 + m)[n + 2]);
        } else {
            assert(render(a)[12 + n + 2] == render(a).subrange(12 + m, 30 + m)[n + 2 - m]);
        }
        assert(false);
    }
    assert(a.match_pattern == b.match_pattern);
    assert(a.redirect_pattern == b.redirect_pattern);
}

/// The document of no rules is empty.
pub proof fn lemma_document_of_none()
    ensures
        document(Seq::<RuleView>::empty()) == Seq::<char>::empty(),
{
}

/// One more rule adds its block to the document, behind one line feed
/// where the document held a block already.
pub proof fn lemma_document_push(rules: Seq<RuleView>, rule: RuleView)
    ensures
        document(rules.push(rule)) == if rules.len() == 0 {
            render(rule)
        } else {
            document(rules) + "\n"@ + render(rule)
        },
{
    assert(rules.push(rule).drop_last() == rules);
}

/// The document of `rules` holds the block of each rule where
/// `block_start` says, whole and in the order of the rules. Behind each
/// block but the last stands exactly one line feed, which leaves one blank
/// line between two blocks; the document ends with the last block.
pub proof fn lemma_document_blocks(rules: Seq<RuleView>, i: int)
    requires
        0 <= i < rules.len(),
    ensures
        0 <= block_start(rules, i),
        block_start(rules, i) + render(rules[i]).len() <= document(rules).len(),
        document(rules).subrange(
            block_start(rules, i),
            block_start(rules, i) + render(rules[i]).len(),
        ) == render(rules[i]),
        i + 1 < rules.len() ==> document(rules)[block_start(rules, i) + render(rules[i]).len()]
            == '\n' && block_start(rules, i + 1) == block_start(rules, i) + render(
            rules[i],
        ).len() + 1,
        i + 1 == rules.len() ==> block_start(rules, i) + render(rules[i]).len() == document(
            rules,
        ).len(),
    decreases rules.len(),
{
    reveal_strlit("\n");
    let before = rules.drop_last();
    let last = rules.len() - 1;
    lemma_block_start_of_prefix(rules, before, last);
    if last > 0 {
        // The rules before the last fill the document up to the line feed
        // that the last block stands behind.
        lemma_document_blocks(before, last - 1);
        lemma_block_start_of_prefix(rules, before, last - 1);
        if i < last {
            lemma_document_blocks(before, i);
            lemma_block_start_of_prefix(rules, before, i);
        }
    }
}

/// Where a block begins depends on the rules before it alone.
proof fn lemma_block_start_of_prefix(rules: Seq<RuleView>, prefix: Seq<RuleView>, i: int)
    requires
        prefix.len() <= rules.len(),
        forall|j: int| 0 <= j < prefix.len() ==> prefix[j] == rules[j],
        i <= prefix.len(),
    ensures
        block_start(prefix, i) == block_start(rules, i),
        0 <= block_start(rules, i),
    decreases i,
{
    if i > 0 {
        lemma_block_start_of_prefix(rules, prefix, i - 1);
    }
}

impl RedirectRule {
    /// Builds a rule from its two patterns, taken verbatim.
    pub fn new(match_pattern: &str, redirect_pattern: &str) -> (rule: Self)
        ensures
            rule@.match_pattern == match_pattern@,
            rule@.redirect_pattern == redirect_pattern@,
    {
        Self {
            match_pattern: String::from_str(match_pattern),
            redirect_pattern: String::from_str(redirect_pattern),
        }
    }

    /// The pattern that a request is matched against.
    pub fn match_pattern(&self) -> (pattern: &str)
        ensures
            pattern@ == self@.match_pattern,
    {
        self.match_pattern.as_str()
    }

    /// The target that a matching request is redirected to.
    pub fn redirect_pattern(&self) -> (pattern: &str)
        ensures
            pattern@ == self@.redirect_pattern,
    {
        self.redirect_pattern.as_str()
    }

    /// Renders the rule as its configuration block.
    pub fn to_conf(&self) -> (conf: String)
        ensures
            conf@ == render(self@),
    {
        let mut conf = String::new();
        conf.append("location ~* ");
        conf.append(self.match_pattern.as_str());
        conf.append(" {\n");
        conf.append("    return 301 ");
        conf.append(self.redirect_pattern.as_str());
        conf.append(";\n");
        conf.append("}\n");
        conf
    }
}

/// Renders `rules` as one configuration document.
pub fn build_conf(rules: &[RedirectRule]) -> (conf: String)
    ensures
        conf@ == document(rules.deep_view()),
{
    let mut conf = String::new();
    let mut i: usize = 0;
    while i < rules.len()
        invariant
            i <= rules.len(),
            conf@ == document(rules.deep_view().take(i as int)),
        decreases rules.len() - i,
    {
        let ghost done = rules.deep_view().take(i as int);
        let ghost next = rules.deep_view().take(i + 1);
        assert(next.drop_last() == done);
        if i > 0 {
            conf.append("\n");
        }
        let block = rules[i].to_conf();
        conf.append(block.as_str());
        i += 1;
    }
    assert(rules.deep_view().take(i as int) == rules.deep_view());
    conf
}

} // verus!
