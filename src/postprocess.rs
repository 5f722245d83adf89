use vstd::prelude::*;
use crate::news::{NewsStory, StoryView};

verus! {

/// Whether `regex::Regex::new` accepts `pattern`.
pub uninterp spec fn is_valid_pattern(pattern: Seq<char>) -> bool;

/// What `regex::Regex::replace_all` makes of `text` when every match of
/// `pattern` is replaced by `substitution`.
pub uninterp spec fn replaced_all(
    pattern: Seq<char>,
    text: Seq<char>,
    substitution: Seq<char>,
) -> Seq<char>;

/// Relies on regex::Regex::new, which accepts or refuses a pattern by its text
/// alone, and on Regex::replace_all, whose output depends on the pattern, the
/// text and the substitution alone.
#[verifier::external_body]
fn regex_replace_all(pattern: &str, text: &str, substitution: &str) -> (r: Option<String>)
    ensures
        r is Some <==> is_valid_pattern(pattern@),
        r is Some ==> r.unwrap()@ == replaced_all(pattern@, text@, substitution@),
{
    match regex::Regex::new(pattern) {
        Ok(re) => Some(re.replace_all(text, substitution).into_owned()),
        Err(_) => None,
    }
}

/// A rule as plain text: every match of `pattern` becomes `substitution`.
pub struct RuleView {
    pub pattern: Seq<char>,
    pub substitution: Seq<char>,
}

/// One headline rewrite: every match of a regular expression is replaced.
pub struct Postprocessor {
    pattern: String,
    substitution: String,
}

/// A pattern that is not a regular expression the rewriting accepts.
pub struct InvalidPattern {
    pub pattern: String,
}

impl View for Postprocessor {
    type V = RuleView;

    closed spec fn view(&self) -> RuleView {
        RuleView { pattern: self.pattern@, substitution: self.substitution@ }
    }
}

/// The text after every rule of `rules` has been applied, first to last.
pub open spec fn postprocessed(text: Seq<char>, rules: Seq<RuleView>) -> Seq<char>
    decreases rules.len(),
{
    if rules.len() == 0 {
        text
    } else {
        let rule = rules.last();
        replaced_all(rule.pattern, postprocessed(text, rules.drop_last()), rule.substitution)
    }
}

/// The views of a list of rules.
pub open spec fn rule_views(rules: Seq<Postprocessor>) -> Seq<RuleView> {
    rules.map_values(|p: Postprocessor| p@)
}

impl Postprocessor {
    #[verifier::type_invariant]
    spec fn valid(self) -> bool {
        is_valid_pattern(self.pattern@)
    }

    /// A rule replacing matches of `pattern` with `substitution`; refused when
    /// the pattern does not compile.
    pub fn new(pattern: String, substitution: String) -> (r: Result<Postprocessor, InvalidPattern>)
        ensures
            r is Ok <==> is_valid_pattern(pattern@),
            r is Ok ==> r->Ok_0@ == (RuleView { pattern: pattern@, substitution: substitution@ }),
            r is Err ==> r->Err_0.pattern@ == pattern@,
    {
        // a pattern is accepted exactly when a replacement with it succeeds
        match regex_replace_all(pattern.as_str(), "", "") {
            Some(_) => Ok(Postprocessor { pattern, substitution }),
            None => Err(InvalidPattern { pattern }),
        }
    }

    pub fn pattern(&self) -> (r: &str)
        ensures
            r@ == self@.pattern,
    {
        self.pattern.as_str()
    }

    pub fn substitution(&self) -> (r: &str)
        ensures
            r@ == self@.substitution,
    {
        self.substitution.as_str()
    }

    /// Applies this rule to a text.
    pub fn apply(&self, text: &str) -> (r: String)
        ensures
            r@ == replaced_all(self@.pattern, text@, self@.substitution),
    {
        proof {
            use_type_invariant(self);
        }
        match regex_replace_all(self.pattern.as_str(), text, self.substitution.as_str()) {
            Some(out) => out,
            None => String::new(),
        }
    }

    /// Rewrites the headline of `story`; its id and address stay.
    pub fn postprocess(&self, story: &mut NewsStory)
        ensures
            final(story)@ == (StoryView {
                headline: replaced_all(self@.pattern, old(story)@.headline, self@.substitution),
                ..old(story)@
            }),
    {
        let headline = self.apply(story.headline.as_str());
        story.headline = headline;
    }
}

/// Applies every rule, in order, to a text.
pub fn postprocess_text(text: &str, rules: &Vec<Postprocessor>) -> (r: String)
    ensures
        r@ == postprocessed(text@, rule_views(rules@)),
{
    let mut out = String::from_str(text);
    let mut i: usize = 0;
    while i < rules.len()
        invariant
            i <= rules@.len(),
            out@ == postprocessed(text@, rule_views(rules@.subrange(0, i as int))),
        decreases rules@.len() - i,
    {
        let rule = &rules[i];
        out = rule.apply(out.as_str());
        proof {
            let before = rule_views(rules@.subrange(0, i as int));
            let after = rule_views(rules@.subrange(0, i as int + 1));
            assert(after.drop_last() =~= before);
            assert(after.last() == rules@[i as int]@);
        }
        i = i + 1;
    }
    assert(rules@.subrange(0, rules@.len() as int) =~= rules@);
    out
}

/// Applies every rule, in order, to the headline of `story`.
pub fn postprocess_story(story: &mut NewsStory, rules: &Vec<Postprocessor>)
    ensures
        final(story)@ == (StoryView {
            headline: postprocessed(old(story)@.headline, rule_views(rules@)),
            ..old(story)@
        }),
{
    let headline = postprocess_text(story.headline.as_str(), rules);
    story.headline = headline;
}

/// Postprocessing is a function of the text and the rules: equal inputs give
/// equal headlines, whenever it is run.
pub proof fn lemma_postprocess_deterministic(
    text1: Seq<char>,
    text2: Seq<char>,
    rules1: Seq<RuleView>,
    rules2: Seq<RuleView>,
)
    requires
        text1 == text2,
        rules1 == rules2,
    ensures
        postprocessed(text1, rules1) == postprocessed(text2, rules2),
{
}

/// Rules apply in the order given: the output of a list of rules is the
/// output of its last rule on what the others made.
pub proof fn lemma_postprocess_in_order(text: Seq<char>, rules: Seq<RuleView>, rule: RuleView)
    ensures
        postprocessed(text, rules.push(rule))
            == replaced_all(rule.pattern, postprocessed(text, rules), rule.substitution),
{
    assert(rules.push(rule).drop_last() =~= rules);
}

} // verus!
