//! Offline classification: user rules in priority order, then a fixed
//! table of well-known extensions, then a catch-all category.

use vstd::prelude::*;
use vstd::string::*;
use crate::text::{
    ascii_case_eq, contains_seq, contains_text, eq_ignore_ascii_case, lower_of, same_text,
    to_lower,
};

verus! {

/// Whether a regular expression pattern compiles (`regex::Regex::new` is `Ok`).
pub uninterp spec fn pattern_is_valid(pattern: Seq<char>) -> bool;

/// Whether a compiled pattern finds a match anywhere in a text
/// (`regex::Regex::is_match`).
pub uninterp spec fn pattern_finds(pattern: Seq<char>, hay: Seq<char>) -> bool;

/// Relies on `regex::Regex::new` (is the pattern valid?) and on
/// `regex::Regex::is_match` (is there a match anywhere in `hay`?).
/// `None` stands for a pattern that does not compile.
#[verifier::external_body]
fn regex_search(pattern: &str, hay: &str) -> (r: Option<bool>)
    ensures
        r.is_some() == pattern_is_valid(pattern@),
        r matches Some(b) ==> b == pattern_finds(pattern@, hay@),
{
    match regex::Regex::new(pattern) {
        Ok(re) => Some(re.is_match(hay)),
        Err(_) => None,
    }
}

/// How the decision on a file was reached.
#[derive(Clone, Copy, Debug, PartialEq, Eq, Structural)]
pub enum ClassificationMethod {
    Remote,
    LocalRule,
    LocalExtension,
    LocalDefault,
}

/// What to do when the destination path is already taken.
#[derive(Clone, Copy, Debug, PartialEq, Eq, Structural)]
pub enum ConflictStrategy {
    Skip,
    Overwrite,
    Rename,
}

impl ConflictStrategy {
    /// `overwrite` and `rename` select those policies; any other word, or
    /// none, means `Skip`.
    pub fn from_name(name: Option<&str>) -> (r: ConflictStrategy)
        ensures
            r == (match name {
                Some(n) => if n@ == "overwrite"@ {
                    ConflictStrategy::Overwrite
                } else if n@ == "rename"@ {
                    ConflictStrategy::Rename
                } else {
                    ConflictStrategy::Skip
                },
                None => ConflictStrategy::Skip,
            }),
    {
        match name {
            Some(n) => if same_text(n, "overwrite") {
                ConflictStrategy::Overwrite
            } else if same_text(n, "rename") {
                ConflictStrategy::Rename
            } else {
                ConflictStrategy::Skip
            },
            None => ConflictStrategy::Skip,
        }
    }
}

/// The condition of a user rule.
#[derive(Clone, Debug)]
pub enum RuleCondition {
    /// The extension equals one of these, ignoring ASCII case.
    Extension { extensions: Vec<String> },
    /// The file name contains one of these keywords.
    Keyword { keywords: Vec<String>, case_sensitive: bool },
    /// The file name matches this regular expression.
    Regex { pattern: String },
    /// A condition kind this engine does not know; it never matches.
    Unsupported,
}

/// A user rule: files meeting `condition` go to `destination`.
#[derive(Clone, Debug)]
pub struct LocalRule {
    pub id: String,
    pub name: String,
    pub condition: RuleCondition,
    pub destination: String,
    pub priority: i32,
}

/// The condition that a rule's kind word and its stored parts describe.
pub open spec fn condition_from_parts(
    kind: Seq<char>,
    extensions: Vec<String>,
    keywords: Vec<String>,
    case_sensitive: bool,
    pattern: Option<String>,
) -> RuleCondition {
    if kind == "extension"@ {
        RuleCondition::Extension { extensions }
    } else if kind == "keyword"@ {
        RuleCondition::Keyword { keywords, case_sensitive }
    } else if kind == "regex"@ {
        match pattern {
            Some(p) => RuleCondition::Regex { pattern: p },
            None => RuleCondition::Unsupported,
        }
    } else {
        RuleCondition::Unsupported
    }
}

impl RuleCondition {
    /// Builds a condition from its kind (`extension`, `keyword` or `regex`)
    /// and the parts stored with the rule; a missing keyword list or
    /// extension list is an empty one. An unknown kind, or a `regex` rule
    /// without a pattern, never matches.
    pub fn from_parts(
        kind: &str,
        extensions: Vec<String>,
        keywords: Vec<String>,
        case_sensitive: bool,
        pattern: Option<String>,
    ) -> (r: RuleCondition)
        ensures
            r == condition_from_parts(kind@, extensions, keywords, case_sensitive, pattern),
    {
        if same_text(kind, "extension") {
            RuleCondition::Extension { extensions }
        } else if same_text(kind, "keyword") {
            RuleCondition::Keyword { keywords, case_sensitive }
        } else if same_text(kind, "regex") {
            match pattern {
                Some(p) => RuleCondition::Regex { pattern: p },
                None => RuleCondition::Unsupported,
            }
        } else {
            RuleCondition::Unsupported
        }
    }
}

/// A keyword hit inside a file name.
pub open spec fn keyword_hit(keyword: Seq<char>, filename: Seq<char>, case_sensitive: bool) -> bool {
    if case_sensitive {
        contains_seq(filename, keyword)
    } else {
        contains_seq(lower_of(filename), lower_of(keyword))
    }
}

/// One of `extensions` equals `ext` up to ASCII case.
pub open spec fn extension_listed(extensions: Seq<String>, ext: Seq<char>) -> bool {
    exists|j: int| 0 <= j < extensions.len() && ascii_case_eq(#[trigger] extensions[j]@, ext)
}

/// One of `keywords` occurs in `filename`.
pub open spec fn keyword_listed(keywords: Seq<String>, filename: Seq<char>, case_sensitive: bool) -> bool {
    exists|j: int|
        0 <= j < keywords.len() && keyword_hit(#[trigger] keywords[j]@, filename, case_sensitive)
}

/// Whether a condition holds of a file name and its extension.
pub open spec fn condition_holds(c: RuleCondition, filename: Seq<char>, ext: Seq<char>) -> bool {
    match c {
        RuleCondition::Extension { extensions } => extension_listed(extensions@, ext),
        RuleCondition::Keyword { keywords, case_sensitive } => keyword_listed(
            keywords@,
            filename,
            case_sensitive,
        ),
        RuleCondition::Regex { pattern } => pattern_is_valid(pattern@) && pattern_finds(
            pattern@,
            filename,
        ),
        RuleCondition::Unsupported => false,
    }
}

impl RuleCondition {
    /// Decides the condition for one file.
    pub fn holds(&self, filename: &str, extension: &str) -> (r: bool)
        ensures
            r == condition_holds(*self, filename@, extension@),
    {
        match self {
            RuleCondition::Extension { extensions } => {
                let mut j: usize = 0;
                while j < extensions.len()
                    invariant
                        *self == (RuleCondition::Extension { extensions: *extensions }),
                        j <= extensions@.len(),
                        forall|k: int| 0 <= k < j ==> !ascii_case_eq(#[trigger] extensions@[k]@, extension@),
                    decreases extensions@.len() - j,
                {
                    if eq_ignore_ascii_case(extensions[j].as_str(), extension) {
                        assert(ascii_case_eq(extensions@[j as int]@, extension@));
                        assert(extension_listed(extensions@, extension@));
                        return true;
                    }
                    j += 1;
                }
                false
            },
            RuleCondition::Keyword { keywords, case_sensitive } => {
                let folded = to_lower(filename);
                let mut j: usize = 0;
                while j < keywords.len()
                    invariant
                        *self == (RuleCondition::Keyword {
                            keywords: *keywords,
                            case_sensitive: *case_sensitive,
                        }),
                        j <= keywords@.len(),
                        folded@ == lower_of(filename@),
                        forall|k: int|
                            0 <= k < j ==> !keyword_hit(#[trigger] keywords@[k]@, filename@, *case_sensitive),
                    decreases keywords@.len() - j,
                {
                    let hit = if *case_sensitive {
                        contains_text(filename, keywords[j].as_str())
                    } else {
                        let k = to_lower(keywords[j].as_str());
                        contains_text(folded.as_str(), k.as_str())
                    };
                    if hit {
                        assert(keyword_hit(keywords@[j as int]@, filename@, *case_sensitive));
                        return true;
                    }
                    j += 1;
                }
                false
            },
            RuleCondition::Regex { pattern } => {
                match regex_search(pattern.as_str(), filename) {
                    Some(found) => found,
                    None => false,
                }
            },
            RuleCondition::Unsupported => false,
        }
    }
}

/// The categories of the built-in extension table.
#[derive(Clone, Copy, Debug, PartialEq, Eq, Structural)]
pub enum Category {
    Documents,
    Pictures,
    Videos,
    Music,
    Archives,
    Installers,
    Code,
}

impl Category {
    /// The category's label, also the name of its destination folder.
    pub open spec fn label(self) -> Seq<char> {
        match self {
            Category::Documents => "Documents"@,
            Category::Pictures => "Pictures"@,
            Category::Videos => "Videos"@,
            Category::Music => "Music"@,
            Category::Archives => "Archives"@,
            Category::Installers => "Installers"@,
            Category::Code => "Code"@,
        }
    }

    /// The label as a `String`.
    pub fn name(&self) -> (r: String)
        ensures
            r@ == self.label(),
    {
        match self {
            Category::Documents => String::from_str("Documents"),
            Category::Pictures => String::from_str("Pictures"),
            Category::Videos => String::from_str("Videos"),
            Category::Music => String::from_str("Music"),
            Category::Archives => String::from_str("Archives"),
            Category::Installers => String::from_str("Installers"),
            Category::Code => String::from_str("Code"),
        }
    }
}

/// The built-in table: the category of an already lower-cased extension
/// (with its leading dot).
pub open spec fn category_of_extension(ext: Seq<char>) -> Option<Category> {
    if ext == ".pdf"@ ||
        ext == ".doc"@ ||
        ext == ".docx"@ ||
        ext == ".txt"@ ||
        ext == ".rtf"@ ||
        ext == ".odt"@ ||
        ext == ".xls"@ ||
        ext == ".xlsx"@ ||
        ext == ".ppt"@ ||
        ext == ".pptx"@ {
        Some(Category::Documents)
    } else if ext == ".jpg"@ ||
        ext == ".jpeg"@ ||
        ext == ".png"@ ||
        ext == ".gif"@ ||
        ext == ".bmp"@ ||
        ext == ".webp"@ ||
        ext == ".svg"@ ||
        ext == ".heic"@ ||
        ext == ".ico"@ {
        Some(Category::Pictures)
    } else if ext == ".mp4"@ ||
        ext == ".avi"@ ||
        ext == ".mkv"@ ||
        ext == ".mov"@ ||
        ext == ".wmv"@ ||
        ext == ".webm"@ ||
        ext == ".flv"@ ||
        ext == ".m4v"@ {
        Some(Category::Videos)
    } else if ext == ".mp3"@ ||
        ext == ".wav"@ ||
        ext == ".flac"@ ||
        ext == ".aac"@ ||
        ext == ".ogg"@ ||
        ext == ".m4a"@ ||
        ext == ".wma"@ {
        Some(Category::Music)
    } else if ext == ".zip"@ ||
        ext == ".rar"@ ||
        ext == ".7z"@ ||
        ext == ".tar"@ ||
        ext == ".gz"@ ||
        ext == ".bz2"@ ||
        ext == ".xz"@ {
        Some(Category::Archives)
    } else if ext == ".exe"@ ||
        ext == ".msi"@ ||
        ext == ".dmg"@ ||
        ext == ".deb"@ ||
        ext == ".rpm"@ ||
        ext == ".appimage"@ {
        Some(Category::Installers)
    } else if ext == ".py"@ ||
        ext == ".js"@ ||
        ext == ".ts"@ ||
        ext == ".html"@ ||
        ext == ".css"@ ||
        ext == ".java"@ ||
        ext == ".cpp"@ ||
        ext == ".c"@ ||
        ext == ".go"@ ||
        ext == ".rs"@ ||
        ext == ".rb"@ {
        Some(Category::Code)
    } else {
        None
    }
}

/// Looks an already lower-cased extension up in the built-in table.
pub fn category_for_extension(ext: &str) -> (r: Option<Category>)
    ensures
        r == category_of_extension(ext@),
{
    if same_text(ext, ".pdf") ||
        same_text(ext, ".doc") ||
        same_text(ext, ".docx") ||
        same_text(ext, ".txt") ||
        same_text(ext, ".rtf") ||
        same_text(ext, ".odt") ||
        same_text(ext, ".xls") ||
        same_text(ext, ".xlsx") ||
        same_text(ext, ".ppt") ||
        same_text(ext, ".pptx") {
        Some(Category::Documents)
    } else if same_text(ext, ".jpg") ||
        same_text(ext, ".jpeg") ||
        same_text(ext, ".png") ||
        same_text(ext, ".gif") ||
        same_text(ext, ".bmp") ||
        same_text(ext, ".webp") ||
        same_text(ext, ".svg") ||
        same_text(ext, ".heic") ||
        same_text(ext, ".ico") {
        Some(Category::Pictures)
    } else if same_text(ext, ".mp4") ||
        same_text(ext, ".avi") ||
        same_text(ext, ".mkv") ||
        same_text(ext, ".mov") ||
        same_text(ext, ".wmv") ||
        same_text(ext, ".webm") ||
        same_text(ext, ".flv") ||
        same_text(ext, ".m4v") {
        Some(Category::Videos)
    } else if same_text(ext, ".mp3") ||
        same_text(ext, ".wav") ||
        same_text(ext, ".flac") ||
        same_text(ext, ".aac") ||
        same_text(ext, ".ogg") ||
        same_text(ext, ".m4a") ||
        same_text(ext, ".wma") {
        Some(Category::Music)
    } else if same_text(ext, ".zip") ||
        same_text(ext, ".rar") ||
        same_text(ext, ".7z") ||
        same_text(ext, ".tar") ||
        same_text(ext, ".gz") ||
        same_text(ext, ".bz2") ||
        same_text(ext, ".xz") {
        Some(Category::Archives)
    } else if same_text(ext, ".exe") ||
        same_text(ext, ".msi") ||
        same_text(ext, ".dmg") ||
        same_text(ext, ".deb") ||
        same_text(ext, ".rpm") ||
        same_text(ext, ".appimage") {
        Some(Category::Installers)
    } else if same_text(ext, ".py") ||
        same_text(ext, ".js") ||
        same_text(ext, ".ts") ||
        same_text(ext, ".html") ||
        same_text(ext, ".css") ||
        same_text(ext, ".java") ||
        same_text(ext, ".cpp") ||
        same_text(ext, ".c") ||
        same_text(ext, ".go") ||
        same_text(ext, ".rs") ||
        same_text(ext, ".rb") {
        Some(Category::Code)
    } else {
        None
    }
}

/// Extensions whose files are read for a content preview.
pub open spec fn is_text_extension(ext: Seq<char>) -> bool {
    ext == ".txt"@ ||
    ext == ".md"@ ||
    ext == ".json"@ ||
    ext == ".xml"@ ||
    ext == ".csv"@ ||
    ext == ".log"@ ||
    ext == ".py"@ ||
    ext == ".js"@ ||
    ext == ".ts"@ ||
    ext == ".html"@ ||
    ext == ".css"@ ||
    ext == ".yaml"@ ||
    ext == ".yml"@ ||
    ext == ".toml"@ ||
    ext == ".ini"@ ||
    ext == ".cfg"@
}

/// Whether a file with this extension (any case) is a text file whose
/// first bytes are worth sending along for classification.
pub fn is_text_file(extension: &str) -> (r: bool)
    ensures
        r == is_text_extension(lower_of(extension@)),
{
    let lowered = to_lower(extension);
    is_listed_text_extension(lowered.as_str())
}

/// Whether an already lower-cased extension is one of the text extensions.
pub fn is_listed_text_extension(e: &str) -> (r: bool)
    ensures
        r == is_text_extension(e@),
{
    same_text(e, ".txt") ||
    same_text(e, ".md") ||
    same_text(e, ".json") ||
    same_text(e, ".xml") ||
    same_text(e, ".csv") ||
    same_text(e, ".log") ||
    same_text(e, ".py") ||
    same_text(e, ".js") ||
    same_text(e, ".ts") ||
    same_text(e, ".html") ||
    same_text(e, ".css") ||
    same_text(e, ".yaml") ||
    same_text(e, ".yml") ||
    same_text(e, ".toml") ||
    same_text(e, ".ini") ||
    same_text(e, ".cfg")
}

/// A classification decision.
#[derive(Clone, Debug)]
pub struct Classification {
    pub category: String,
    pub destination: String,
    /// Confidence in hundredths, from 0 to 100.
    pub confidence_percent: u32,
    pub rule_id: Option<String>,
    pub rule_name: Option<String>,
    pub method: ClassificationMethod,
    pub conflict_strategy: ConflictStrategy,
}

/// The position at which an item of priority `p` joins a list ordered by
/// descending priority: after every item of priority `p` or higher at its head.
pub open spec fn insertion_point(s: Seq<LocalRule>, p: i32) -> nat
    decreases s.len(),
{
    if s.len() == 0 {
        0
    } else if s[0].priority < p {
        0
    } else {
        1 + insertion_point(s.drop_first(), p)
    }
}

/// The rules ordered by descending priority; rules of equal priority keep
/// the order in which they were given.
pub open spec fn by_priority(s: Seq<LocalRule>) -> Seq<LocalRule>
    decreases s.len(),
{
    if s.len() == 0 {
        s
    } else {
        let prev = by_priority(s.drop_last());
        prev.insert(insertion_point(prev, s.last().priority) as int, s.last())
    }
}

proof fn lemma_insertion_point_bound(s: Seq<LocalRule>, p: i32)
    ensures
        insertion_point(s, p) <= s.len(),
    decreases s.len(),
{
    if s.len() > 0 {
        lemma_insertion_point_bound(s.drop_first(), p);
    }
}

/// Ordering by priority keeps exactly the given rules.
proof fn lemma_by_priority_same_rules(s: Seq<LocalRule>)
    ensures
        by_priority(s).to_multiset() == s.to_multiset(),
    decreases s.len(),
{
    broadcast use vstd::seq_lib::group_to_multiset_ensures;

    if s.len() > 0 {
        let prev = by_priority(s.drop_last());
        let x = s.last();
        let i = insertion_point(prev, x.priority) as int;
        lemma_by_priority_same_rules(s.drop_last());
        lemma_insertion_point_bound(prev, x.priority);
        let ins = prev.insert(i, x);
        assert(ins.remove(i) =~= prev);
        assert(ins[i] == x);
        assert(ins.to_multiset().count(x) > 0);
        assert(ins.to_multiset() =~= prev.to_multiset().insert(x));
        assert(s.drop_last().push(x) =~= s);
    }
}

/// Descending order of priority.
pub open spec fn priority_descending(s: Seq<LocalRule>) -> bool {
    forall|a: int, b: int| 0 <= a < b < s.len() ==> s[a].priority >= s[b].priority
}

/// `i` is the first rule in `rules` whose condition holds.
pub open spec fn is_first_applying(rules: Seq<LocalRule>, filename: Seq<char>, ext: Seq<char>, i: int) -> bool {
    &&& 0 <= i < rules.len()
    &&& condition_holds(rules[i].condition, filename, ext)
    &&& forall|k: int| 0 <= k < i ==> !condition_holds(#[trigger] rules[k].condition, filename, ext)
}

/// Some rule in `rules` applies.
pub open spec fn some_rule_applies(rules: Seq<LocalRule>, filename: Seq<char>, ext: Seq<char>) -> bool {
    exists|i: int| 0 <= i < rules.len() && condition_holds(#[trigger] rules[i].condition, filename, ext)
}

/// `r` is the decision that `rule` yields.
pub open spec fn decided_by_rule(r: Classification, rule: LocalRule) -> bool {
    &&& r.category@ == rule.name@
    &&& r.destination@ == rule.destination@
    &&& r.confidence_percent == 100
    &&& r.rule_id matches Some(id) && id@ == rule.id@
    &&& r.rule_name matches Some(n) && n@ == rule.name@
    &&& r.method == ClassificationMethod::LocalRule
    &&& r.conflict_strategy == ConflictStrategy::Skip
}

/// `r` is the decision for a file that no rule claims.
pub open spec fn decided_by_table(r: Classification, ext: Seq<char>) -> bool {
    &&& r.rule_id is None
    &&& r.rule_name is None
    &&& r.conflict_strategy == ConflictStrategy::Skip
    &&& match category_of_extension(lower_of(ext)) {
        Some(c) => {
            &&& r.category@ == c.label()
            &&& r.destination@ == c.label()
            &&& r.confidence_percent == 80
            &&& r.method == ClassificationMethod::LocalExtension
        },
        None => {
            &&& r.category@ == "Other"@
            &&& r.destination@ == "Other"@
            &&& r.confidence_percent == 50
            &&& r.method == ClassificationMethod::LocalDefault
        },
    }
}

/// The offline decision for a file, given the rules in the order tried.
pub open spec fn local_decision(
    r: Classification,
    rules: Seq<LocalRule>,
    filename: Seq<char>,
    ext: Seq<char>,
) -> bool {
    if some_rule_applies(rules, filename, ext) {
        exists|i: int| is_first_applying(rules, filename, ext, i) && decided_by_rule(r, rules[i])
    } else {
        decided_by_table(r, ext)
    }
}

/// Classifies files without the remote service.
pub struct LocalClassifier {
    rules: Vec<LocalRule>,
}

impl LocalClassifier {
    /// The rules in the order they are tried.
    pub closed spec fn rules_view(&self) -> Seq<LocalRule> {
        self.rules@
    }

    /// The rules are kept in descending order of priority.
    pub open spec fn wf(&self) -> bool {
        priority_descending(self.rules_view())
    }

    /// A classifier with no user rules.
    pub fn new() -> (r: LocalClassifier)
        ensures
            r.rules_view() == Seq::<LocalRule>::empty(),
            r.wf(),
    {
        LocalClassifier { rules: Vec::new() }
    }

    /// Replaces all rules with `rules`, ordered by descending priority
    /// (ties keep their given order).
    pub fn set_rules(&mut self, rules: Vec<LocalRule>)
        ensures
            final(self).rules_view() == by_priority(rules@),
            final(self).rules_view().to_multiset() == rules@.to_multiset(),
            final(self).wf(),
    {
        let ghost given = rules@;
        let n = rules.len();
        let mut rest = rules;
        let mut ordered: Vec<LocalRule> = Vec::new();
        let mut k: usize = 0;
        while rest.len() > 0
            invariant
                k <= given.len(),
                rest@ == given.skip(k as int),
                rest@.len() + k == given.len(),
                given.len() == n,
                ordered@ == by_priority(given.take(k as int)),
                priority_descending(ordered@),
            decreases rest@.len(),
        {
            let rule = rest.remove(0);
            let p = rule.priority;
            let mut i: usize = 0;
            assert(ordered@.skip(0) =~= ordered@);
            while i < ordered.len() && ordered[i].priority >= p
                invariant
                    i <= ordered@.len(),
                    insertion_point(ordered@, p) == i + insertion_point(ordered@.skip(i as int), p),
                    forall|m: int| 0 <= m < i ==> ordered@[m].priority >= p,
                decreases ordered@.len() - i,
            {
                assert(ordered@.skip(i as int).drop_first() =~= ordered@.skip(i + 1));
                i += 1;
            }
            proof {
                assert(given.take(k + 1).drop_last() =~= given.take(k as int));
                assert(given.take(k + 1).last() == rule);
            }
            let ghost before = ordered@;
            ordered.insert(i, rule);
            assert(ordered@ =~= before.insert(i as int, rule));
            k += 1;
            assert(rest@ =~= given.skip(k as int));
        }
        assert(given.take(k as int) =~= given);
        proof {
            lemma_by_priority_same_rules(given);
        }
        self.rules = ordered;
    }

    /// Classifies a file by its name and extension (with its leading dot).
    /// The first rule that applies decides; otherwise the built-in table,
    /// otherwise the catch-all category. Never fails.
    pub fn classify(&self, filename: &str, extension: &str) -> (r: Classification)
        ensures
            local_decision(r, self.rules_view(), filename@, extension@),
            r.confidence_percent <= 100,
    {
        let mut i: usize = 0;
        while i < self.rules.len()
            invariant
                i <= self.rules@.len(),
                forall|k: int| 0 <= k < i ==> !condition_holds(#[trigger] self.rules@[k].condition, filename@, extension@),
            decreases self.rules@.len() - i,
        {
            let rule = &self.rules[i];
            if rule.condition.holds(filename, extension) {
                assert(is_first_applying(self.rules@, filename@, extension@, i as int));
                return Classification {
                    category: rule.name.clone(),
                    destination: rule.destination.clone(),
                    confidence_percent: 100,
                    rule_id: Some(rule.id.clone()),
                    rule_name: Some(rule.name.clone()),
                    method: ClassificationMethod::LocalRule,
                    conflict_strategy: ConflictStrategy::Skip,
                };
            }
            i += 1;
        }
        let lowered = to_lower(extension);
        match category_for_extension(lowered.as_str()) {
            Some(c) => Classification {
                category: c.name(),
                destination: c.name(),
                confidence_percent: 80,
                rule_id: None,
                rule_name: None,
                method: ClassificationMethod::LocalExtension,
                conflict_strategy: ConflictStrategy::Skip,
            },
            None => Classification {
                category: String::from_str("Other"),
                destination: String::from_str("Other"),
                confidence_percent: 50,
                rule_id: None,
                rule_name: None,
                method: ClassificationMethod::LocalDefault,
                conflict_strategy: ConflictStrategy::Skip,
            },
        }
    }
}

/// When the rules are in descending order of priority, the rule that
/// decides a file has a priority at least that of every other rule that
/// applies to the file.
pub proof fn lemma_deciding_rule_has_top_priority(
    r: Classification,
    rules: Seq<LocalRule>,
    filename: Seq<char>,
    ext: Seq<char>,
    j: int,
)
    requires
        priority_descending(rules),
        local_decision(r, rules, filename, ext),
        0 <= j < rules.len(),
        condition_holds(rules[j].condition, filename, ext),
    ensures
        exists|i: int|
            0 <= i < rules.len() && condition_holds(rules[i].condition, filename, ext)
                && #[trigger] decided_by_rule(r, rules[i]) && rules[i].priority >= rules[j].priority,
{
    assert(some_rule_applies(rules, filename, ext));
    let i = choose|i: int| is_first_applying(rules, filename, ext, i) && decided_by_rule(r, rules[i]);
    if j < i {
        assert(!condition_holds(rules[j].condition, filename, ext));
    }
    assert(decided_by_rule(r, rules[i]));
}

impl Default for LocalClassifier {
    fn default() -> (r: LocalClassifier)
        ensures
            r.rules_view() == Seq::<LocalRule>::empty(),
            r.wf(),
    {
        LocalClassifier::new()
    }
}

} // verus!
