//! Removal of chosen kinds of tag from raw markup.
//!
//! The cleaner does not parse markup. It runs up to four substitutions, in
//! a fixed order, each of which deletes what one pattern matches.

use crate::patterns::{picks, regex_replace_all, remains_of, replace_all, text_of};
use vstd::prelude::*;

verus! {

/// A `<script ...>` opening tag up to the nearest `</script>`, in any
/// letter case and across line breaks.
pub const SCRIPT_PATTERN: &'static str = "(?is)<script.*?</script>";

/// An opening `<a ...>` tag or a closing `</a>`, in any letter case.
pub const ANCHOR_PATTERN: &'static str = "(?i)<a\\s+[^>]*>|</a>";

/// An `<img ...>` tag, in any letter case.
pub const IMAGE_PATTERN: &'static str = "(?i)<img\\s+[^>]*>";

/// A `<source ...>` tag, in any letter case.
pub const SOURCE_PATTERN: &'static str = "(?i)<source\\s+[^>]*>";

/// Which kinds of tag the cleaner removes. Every combination is valid.
#[derive(Clone, Copy, Debug)]
pub struct CleanerConfig {
    pub remove_script_tags: bool,
    pub remove_a_tags: bool,
    pub remove_img_tags: bool,
    pub remove_source_tags: bool,
}

/// `text` without what `pattern` matches in it. A pattern that does not
/// compile matches nothing.
pub open spec fn strip(pattern: Seq<char>, text: Seq<char>) -> Seq<char> {
    match regex_replace_all(pattern, text, Seq::<char>::empty()) {
        Some(rest) => rest,
        None => text,
    }
}

/// One pass of the cleaner: `strip` where the pass is enabled, and the
/// text as it came where it is not.
pub open spec fn pass(enabled: bool, pattern: Seq<char>, text: Seq<char>) -> Seq<char> {
    if enabled {
        strip(pattern, text)
    } else {
        text
    }
}

/// What is left of `text` under `policy`: scripts go first, then anchors,
/// then images, then sources, each pass working on what the one before
/// left.
pub open spec fn sanitized(text: Seq<char>, policy: CleanerConfig) -> Seq<char> {
    let no_scripts = pass(policy.remove_script_tags, SCRIPT_PATTERN@, text);
    let no_anchors = pass(policy.remove_a_tags, ANCHOR_PATTERN@, no_scripts);
    let no_images = pass(policy.remove_img_tags, IMAGE_PATTERN@, no_anchors);
    pass(policy.remove_source_tags, SOURCE_PATTERN@, no_images)
}

/// A pass that the policy disables is skipped: the result is that of the
/// other three passes alone, and with every pass disabled the text comes
/// back as it went in.
pub proof fn lemma_disabled_pass_is_skipped(text: Seq<char>, policy: CleanerConfig)
    ensures
        !policy.remove_script_tags ==> sanitized(text, policy) == pass(
            policy.remove_source_tags,
            SOURCE_PATTERN@,
            pass(
                policy.remove_img_tags,
                IMAGE_PATTERN@,
                pass(policy.remove_a_tags, ANCHOR_PATTERN@, text),
            ),
        ),
        !policy.remove_a_tags ==> sanitized(text, policy) == pass(
            policy.remove_source_tags,
            SOURCE_PATTERN@,
            pass(
                policy.remove_img_tags,
                IMAGE_PATTERN@,
                pass(policy.remove_script_tags, SCRIPT_PATTERN@, text),
            ),
        ),
        !policy.remove_img_tags ==> sanitized(text, policy) == pass(
            policy.remove_source_tags,
            SOURCE_PATTERN@,
            pass(
                policy.remove_a_tags,
                ANCHOR_PATTERN@,
                pass(policy.remove_script_tags, SCRIPT_PATTERN@, text),
            ),
        ),
        !policy.remove_source_tags ==> sanitized(text, policy) == pass(
            policy.remove_img_tags,
            IMAGE_PATTERN@,
            pass(
                policy.remove_a_tags,
                ANCHOR_PATTERN@,
                pass(policy.remove_script_tags, SCRIPT_PATTERN@, text),
            ),
        ),
        !policy.remove_script_tags && !policy.remove_a_tags && !policy.remove_img_tags
            && !policy.remove_source_tags ==> sanitized(text, policy) == text,
{
}

/// A text remains of itself: deleting nothing is deleting.
pub proof fn lemma_remains_of_itself(text: Seq<char>)
    ensures
        remains_of(text, text),
{
    let kept = Seq::new(text.len(), |i: int| i);
    assert(picks(kept, text, text));
}

/// What remains of what remains of a text remains of that text.
pub proof fn lemma_remains_of_remains(out: Seq<char>, between: Seq<char>, text: Seq<char>)
    requires
        remains_of(out, between),
        remains_of(between, text),
    ensures
        remains_of(out, text),
{
    let first = choose|kept: Seq<int>| picks(kept, out, between);
    let second = choose|kept: Seq<int>| picks(kept, between, text);
    let kept = Seq::new(out.len(), |i: int| second[first[i]]);
    assert forall|i: int| 0 <= i < kept.len() implies 0 <= #[trigger] kept[i] < text.len()
        && out[i] == text[kept[i]] by {
        assert(0 <= first[i] < between.len());
        assert(out[i] == between[first[i]]);
    }
    assert forall|i: int, j: int| 0 <= i < j < kept.len() implies #[trigger] kept[i]
        < #[trigger] kept[j] by {
        assert(first[i] < first[j]);
        assert(0 <= first[i] && first[j] < between.len());
        assert(second[first[i]] < second[first[j]]);
    }
    assert(picks(kept, out, text));
}

/// The text that a pass leaves, given what the substitution came back
/// with: the substituted text, or the text as it was where the pattern
/// did not compile.
pub fn text_after(before: String, replaced: Option<String>) -> (out: String)
    ensures
        out@ == match text_of(replaced) {
            Some(rest) => rest,
            None => before@,
        },
{
    match replaced {
        Some(rest) => rest,
        None => before,
    }
}

/// Deletes from `text` what `pattern` matches.
fn remove_matches(pattern: &str, text: String) -> (out: String)
    ensures
        out@ == strip(pattern@, text@),
        remains_of(out@, text@),
{
    proof {
        reveal_strlit("");
        assert(""@ =~= Seq::<char>::empty());
        lemma_remains_of_itself(text@);
    }
    let replaced = replace_all(pattern, text.as_str(), "");
    text_after(text, replaced)
}

/// Removes tags from markup as its policy says.
pub struct HtmlCleaner {
    remove_script_tags: bool,
    remove_a_tags: bool,
    remove_img_tags: bool,
    remove_source_tags: bool,
}

impl HtmlCleaner {
    /// The policy that this cleaner applies.
    pub closed spec fn policy(&self) -> CleanerConfig {
        CleanerConfig {
            remove_script_tags: self.remove_script_tags,
            remove_a_tags: self.remove_a_tags,
            remove_img_tags: self.remove_img_tags,
            remove_source_tags: self.remove_source_tags,
        }
    }

    /// A cleaner that removes nothing.
    pub fn new() -> (cleaner: HtmlCleaner)
        ensures
            cleaner.policy() == (CleanerConfig {
                remove_script_tags: false,
                remove_a_tags: false,
                remove_img_tags: false,
                remove_source_tags: false,
            }),
    {
        HtmlCleaner {
            remove_script_tags: false,
            remove_a_tags: false,
            remove_img_tags: false,
            remove_source_tags: false,
        }
    }

    /// The same cleaner with `config` as its policy.
    pub fn apply_config(self, config: &CleanerConfig) -> (cleaner: Self)
        ensures
            cleaner.policy() == *config,
    {
        let mut cleaner = self;
        cleaner.remove_script_tags = config.remove_script_tags;
        cleaner.remove_a_tags = config.remove_a_tags;
        cleaner.remove_img_tags = config.remove_img_tags;
        cleaner.remove_source_tags = config.remove_source_tags;
        cleaner
    }

    /// The policy, as a value.
    pub fn config(&self) -> (config: CleanerConfig)
        ensures
            config == self.policy(),
    {
        CleanerConfig {
            remove_script_tags: self.remove_script_tags,
            remove_a_tags: self.remove_a_tags,
            remove_img_tags: self.remove_img_tags,
            remove_source_tags: self.remove_source_tags,
        }
    }

    /// Runs the enabled passes over `input`, in their fixed order. Never
    /// fails: there is no markup that the cleaner turns down. The cleaner
    /// only deletes: what it returns is `input` less some of its
    /// characters.
    pub fn clean(&self, input: &str) -> (out: String)
        ensures
            out@ == sanitized(input@, self.policy()),
            remains_of(out@, input@),
    {
        let mut text = input.to_owned();
        proof {
            lemma_remains_of_itself(input@);
        }
        if self.remove_script_tags {
            let ghost before = text@;
            text = remove_matches(SCRIPT_PATTERN, text);
            proof {
                lemma_remains_of_remains(text@, before, input@);
            }
        }
        if self.remove_a_tags {
            let ghost before = text@;
            text = remove_matches(ANCHOR_PATTERN, text);
            proof {
                lemma_remains_of_remains(text@, before, input@);
            }
        }
        if self.remove_img_tags {
            let ghost before = text@;
            text = remove_matches(IMAGE_PATTERN, text);
            proof {
                lemma_remains_of_remains(text@, before, input@);
            }
        }
        if self.remove_source_tags {
            let ghost before = text@;
            text = remove_matches(SOURCE_PATTERN, text);
            proof {
                lemma_remains_of_remains(text@, before, input@);
            }
        }
        text
    }
}

} // verus!
