//! Path-masquerading heuristic, and the path handling it needs.

use vstd::prelude::*;

use crate::environment::{Environment, variable_value};
use crate::ports::{KnownProcess, KnownProcessView, ProcessKnowledgeRepository, RiskRule};
use crate::process::{ProcessInfo, ProcessInfoView, RiskFinding, RiskFindingView, RiskLevel};
use crate::text::{
    all_ascii, ascii_folded, ascii_lowercased, chars_of, equal_ignoring_ascii_case, join, joined,
    lemma_concat_assoc, push_range, texts_view, to_lowercase, unicode_lowercase,
};

verus! {

/// `\` and `/` both separate directories in a Windows path.
pub open spec fn is_separator(c: char) -> bool {
    c == '\\' || c == '/'
}

/// The position of the last separator in a path, if any.
pub open spec fn last_separator(path: Seq<char>) -> Option<int>
    decreases path.len(),
{
    if path.len() == 0 {
        None
    } else if is_separator(path.last()) {
        Some(path.len() - 1)
    } else {
        last_separator(path.drop_last())
    }
}

/// The directory part of a path: everything before its last separator.
pub open spec fn parent_of(path: Seq<char>) -> Option<Seq<char>> {
    match last_separator(path) {
        Some(i) => Some(path.take(i)),
        None => None,
    }
}

/// Returns the directory part of a path string, splitting on either `\` or
/// `/`; `None` when the path has no separator.
///
/// Done on the characters rather than with a platform path type: these are
/// Windows paths handled as data, and must be split the same way everywhere.
pub fn parent_directory(path: &str) -> (directory: Option<String>)
    ensures
        match directory {
            Some(d) => parent_of(path@) == Some(d@),
            None => parent_of(path@) is None,
        },
{
    let chars = chars_of(path);
    let mut i: usize = chars.len();
    assert(chars@.take(i as int) == chars@);
    while i > 0
        invariant
            i <= chars@.len(),
            chars@ == path@,
            last_separator(chars@) == last_separator(chars@.take(i as int)),
        decreases i,
    {
        let c = chars[i - 1];
        proof {
            let seen = chars@.take(i as int);
            assert(seen.last() == c);
            assert(seen.drop_last() == chars@.take(i - 1));
        }
        if c == '\\' || c == '/' {
            let mut directory = String::new();
            push_range(&mut directory, chars.as_slice(), 0, i - 1);
            assert(chars@.subrange(0, i - 1) == chars@.take(i - 1));
            return Some(directory);
        }
        i = i - 1;
    }
    None
}

/// A path with every `/` turned into `\`.
pub open spec fn unify_separators(path: Seq<char>) -> Seq<char> {
    path.map_values(|c: char| if c == '/' { '\\' } else { c })
}

/// A path without its trailing `\` characters.
pub open spec fn trim_trailing_backslashes(path: Seq<char>) -> Seq<char>
    decreases path.len(),
{
    if path.len() > 0 && path.last() == '\\' {
        trim_trailing_backslashes(path.drop_last())
    } else {
        path
    }
}

/// The form in which two directories are compared: separators unified,
/// trailing separators dropped, lower-cased (Windows paths are
/// case-insensitive and may mix `\` and `/`).
pub open spec fn normalized_directory(directory: Seq<char>) -> Seq<char> {
    unicode_lowercase(trim_trailing_backslashes(unify_separators(directory)))
}

/// A trimmed path is a prefix of the path.
proof fn lemma_trim_is_prefix(path: Seq<char>)
    ensures
        trim_trailing_backslashes(path).len() <= path.len(),
        trim_trailing_backslashes(path) == path.take(trim_trailing_backslashes(path).len() as int),
    decreases path.len(),
{
    if path.len() > 0 && path.last() == '\\' {
        lemma_trim_is_prefix(path.drop_last());
        let trimmed = trim_trailing_backslashes(path.drop_last());
        assert(path.drop_last().take(trimmed.len() as int) =~= path.take(trimmed.len() as int));
    } else {
        assert(path.take(path.len() as int) =~= path);
    }
}

/// Unifying separators keeps a text ASCII.
proof fn lemma_unify_keeps_ascii(path: Seq<char>)
    requires
        all_ascii(path),
    ensures
        all_ascii(unify_separators(path)),
{
    assert forall|i: int| 0 <= i < unify_separators(path).len() implies (#[trigger] unify_separators(
        path,
    )[i] as u32) < 128 by {
        assert((path[i] as u32) < 128);
    }
}

/// A character whose ASCII-folded code is that of `\` is `\`.
proof fn lemma_folds_to_backslash(c: char)
    requires
        ascii_folded(c) == ascii_folded('\\'),
    ensures
        c == '\\',
{
}

/// Trimming trailing backslashes keeps two texts equal up to ASCII case.
proof fn lemma_trim_keeps_ascii_case_equality(a: Seq<char>, b: Seq<char>)
    requires
        equal_ignoring_ascii_case(a, b),
    ensures
        equal_ignoring_ascii_case(trim_trailing_backslashes(a), trim_trailing_backslashes(b)),
    decreases a.len(),
{
    if a.len() > 0 {
        assert(ascii_folded(a[a.len() - 1]) == ascii_folded(b[b.len() - 1]));
        if a.last() == '\\' {
            lemma_folds_to_backslash(b.last());
        }
        if b.last() == '\\' {
            lemma_folds_to_backslash(a.last());
        }
        if a.last() == '\\' {
            assert(equal_ignoring_ascii_case(a.drop_last(), b.drop_last()));
            lemma_trim_keeps_ascii_case_equality(a.drop_last(), b.drop_last());
        }
    }
}

/// How an ASCII directory is compared: separators unified, trailing
/// separators dropped, ASCII letters lower-cased.
pub open spec fn ascii_normal_form(directory: Seq<char>) -> Seq<char> {
    ascii_lowercased(trim_trailing_backslashes(unify_separators(directory)))
}

/// Directory comparison ignores ASCII case and the choice of separator: two
/// directories that are equal up to ASCII case once every `/` is read as `\`
/// have the same normal form.
pub proof fn lemma_comparison_ignores_case_and_separators(a: Seq<char>, b: Seq<char>)
    requires
        equal_ignoring_ascii_case(unify_separators(a), unify_separators(b)),
    ensures
        ascii_normal_form(a) == ascii_normal_form(b),
{
    let ta = trim_trailing_backslashes(unify_separators(a));
    let tb = trim_trailing_backslashes(unify_separators(b));
    lemma_trim_keeps_ascii_case_equality(unify_separators(a), unify_separators(b));
    assert forall|i: int| 0 <= i < ta.len() implies #[trigger] ascii_lowercased(ta)[i]
        == ascii_lowercased(tb)[i] by {
        assert(ascii_folded(ta[i]) == ascii_folded(tb[i]));
    }
    assert(ascii_lowercased(ta) =~= ascii_lowercased(tb));
}

/// Trailing separators do not matter: a directory written with a final `\`
/// or `/` compares as the directory without it.
pub proof fn lemma_trailing_separator_is_ignored(directory: Seq<char>, separator: char)
    requires
        is_separator(separator),
    ensures
        normalized_directory(directory.push(separator)) == normalized_directory(directory),
        ascii_normal_form(directory.push(separator)) == ascii_normal_form(directory),
{
    let unified = unify_separators(directory.push(separator));
    assert(unified.drop_last() =~= unify_separators(directory));
    assert(unified.last() == '\\');
}

/// Lower-cases and unifies separators so two Windows directories can be
/// compared. On ASCII text the lower-casing is exactly ASCII lower-casing,
/// so directories that differ only in ASCII case normalize alike.
pub fn normalize_directory(directory: &str) -> (normalized: String)
    ensures
        normalized@ == normalized_directory(directory@),
        all_ascii(directory@) ==> normalized@ == ascii_normal_form(directory@),
{
    let chars = chars_of(directory);
    let mut unified: Vec<char> = Vec::new();
    let mut i: usize = 0;
    while i < chars.len()
        invariant
            i <= chars@.len(),
            chars@ == directory@,
            unified@ == unify_separators(chars@.take(i as int)),
        decreases chars@.len() - i,
    {
        let c = chars[i];
        if c == '/' {
            unified.push('\\');
        } else {
            unified.push(c);
        }
        i = i + 1;
        assert(unified@ =~= unify_separators(chars@.take(i as int)));
    }
    assert(chars@.take(chars@.len() as int) == chars@);
    let mut end: usize = unified.len();
    assert(unified@.take(end as int) == unified@);
    while end > 0 && unified[end - 1] == '\\'
        invariant
            end <= unified@.len(),
            trim_trailing_backslashes(unified@) == trim_trailing_backslashes(
                unified@.take(end as int),
            ),
        decreases end,
    {
        assert(unified@.take(end as int).drop_last() == unified@.take(end - 1));
        end = end - 1;
    }
    let mut trimmed = String::new();
    push_range(&mut trimmed, unified.as_slice(), 0, end);
    assert(unified@.subrange(0, end as int) == unified@.take(end as int));
    proof {
        if all_ascii(directory@) {
            lemma_unify_keeps_ascii(directory@);
            lemma_trim_is_prefix(unified@);
            let t = trim_trailing_backslashes(unified@);
            assert forall|i: int| 0 <= i < t.len() implies (#[trigger] t[i] as u32) < 128 by {
                assert(t[i] == unified@[i]);
            }
        }
    }
    to_lowercase(trimmed.as_str())
}

/// The position of the first `c` in `text`, if any.
pub open spec fn find_char(text: Seq<char>, c: char) -> Option<int>
    decreases text.len(),
{
    if text.len() == 0 {
        None
    } else if text[0] == c {
        Some(0)
    } else {
        match find_char(text.drop_first(), c) {
            Some(i) => Some(i + 1),
            None => None,
        }
    }
}

/// `find_char` finds the first occurrence, or reports that there is none.
pub proof fn lemma_find_char(text: Seq<char>, c: char)
    ensures
        match find_char(text, c) {
            Some(i) => 0 <= i < text.len() && text[i] == c && forall|j: int|
                0 <= j < i ==> #[trigger] text[j] != c,
            None => forall|j: int| 0 <= j < text.len() ==> #[trigger] text[j] != c,
        },
    decreases text.len(),
{
    if text.len() > 0 {
        lemma_find_char(text.drop_first(), c);
        if text[0] != c {
            assert forall|j: int| 1 <= j < text.len() implies text[j] == text.drop_first()[j
                - 1] by {}
        }
    }
}

/// The first occurrence of a character is determined by its defining
/// property.
pub proof fn lemma_find_char_is(text: Seq<char>, c: char, found: Option<int>)
    requires
        match found {
            Some(i) => 0 <= i < text.len() && text[i] == c && forall|j: int|
                0 <= j < i ==> #[trigger] text[j] != c,
            None => forall|j: int| 0 <= j < text.len() ==> #[trigger] text[j] != c,
        },
    ensures
        find_char(text, c) == found,
{
    lemma_find_char(text, c);
    match find_char(text, c) {
        Some(i) => {
            match found {
                Some(k) => {
                    if i < k {
                        assert(text[i] != c);
                    }
                    if k < i {
                        assert(text[k] != c);
                    }
                },
                None => {
                    assert(text[i] != c);
                },
            }
        },
        None => {
            match found {
                Some(k) => {
                    assert(text[k] != c);
                },
                None => {},
            }
        },
    }
}

/// Finds the first `c` at or after `from`.
fn find_from(chars: &Vec<char>, c: char, from: usize) -> (found: Option<usize>)
    requires
        from <= chars@.len(),
    ensures
        match found {
            Some(k) => from <= k < chars@.len() && find_char(chars@.skip(from as int), c) == Some(
                k - from,
            ),
            None => find_char(chars@.skip(from as int), c) is None,
        },
{
    let mut k: usize = from;
    while k < chars.len()
        invariant
            from <= k <= chars@.len(),
            forall|j: int| from <= j < k ==> #[trigger] chars@[j] != c,
        decreases chars@.len() - k,
    {
        if chars[k] == c {
            proof {
                let rest = chars@.skip(from as int);
                assert forall|j: int| 0 <= j < k - from implies #[trigger] rest[j] != c by {
                    assert(rest[j] == chars@[from + j]);
                }
                lemma_find_char_is(rest, c, Some(k - from));
            }
            return Some(k);
        }
        k = k + 1;
    }
    proof {
        let rest = chars@.skip(from as int);
        assert forall|j: int| 0 <= j < rest.len() implies #[trigger] rest[j] != c by {
            assert(rest[j] == chars@[from + j]);
        }
        lemma_find_char_is(rest, c, None);
    }
    None
}

/// What a `%NAME%` placeholder becomes: the variable's value when it is set,
/// otherwise the placeholder itself, unchanged.
pub open spec fn placeholder_value(name: Seq<char>, variables: Seq<(Seq<char>, Seq<char>)>) -> Seq<
    char,
> {
    match variable_value(variables, name) {
        Some(value) => value,
        None => seq!['%'] + name + seq!['%'],
    }
}

/// `path` with each `%NAME%` placeholder replaced, from left to right, by
/// [`placeholder_value`]; a lone `%` without a closing partner is kept, with
/// the rest of the text, verbatim.
pub open spec fn expand_placeholders(path: Seq<char>, variables: Seq<(Seq<char>, Seq<char>)>) -> Seq<
    char,
>
    decreases path.len(),
{
    match find_char(path, '%') {
        None => path,
        Some(start) => {
            let after = path.skip(start + 1);
            match find_char(after, '%') {
                Some(end) => {
                    proof {
                        lemma_find_char(path, '%');
                        lemma_find_char(after, '%');
                    }
                    path.take(start) + placeholder_value(after.take(end), variables)
                        + expand_placeholders(after.skip(end + 1), variables)
                },
                None => path.take(start) + seq!['%'] + after,
            }
        },
    }
}

/// One placeholder step of the expansion, in absolute positions of `chars`.
proof fn lemma_expand_placeholder(
    chars: Seq<char>,
    pos: int,
    start: int,
    end: int,
    variables: Seq<(Seq<char>, Seq<char>)>,
)
    requires
        0 <= pos <= start < end < chars.len(),
        find_char(chars.skip(pos), '%') == Some(start - pos),
        find_char(chars.skip(start + 1), '%') == Some(end - start - 1),
    ensures
        expand_placeholders(chars.skip(pos), variables) == chars.subrange(pos, start)
            + placeholder_value(chars.subrange(start + 1, end), variables) + expand_placeholders(
            chars.skip(end + 1),
            variables,
        ),
{
    let rest = chars.skip(pos);
    let after = rest.skip(start - pos + 1);
    assert(after =~= chars.skip(start + 1));
    assert(rest.take(start - pos) =~= chars.subrange(pos, start));
    assert(after.take(end - start - 1) =~= chars.subrange(start + 1, end));
    assert(after.skip(end - start - 1 + 1) =~= chars.skip(end + 1));
}

/// With no `%` left, or only a lone one, the rest of the text is kept as is.
proof fn lemma_expand_verbatim(
    chars: Seq<char>,
    pos: int,
    variables: Seq<(Seq<char>, Seq<char>)>,
)
    requires
        0 <= pos <= chars.len(),
        match find_char(chars.skip(pos), '%') {
            None => true,
            Some(i) => find_char(chars.skip(pos).skip(i + 1), '%') is None,
        },
    ensures
        expand_placeholders(chars.skip(pos), variables) == chars.subrange(pos, chars.len() as int),
{
    let rest = chars.skip(pos);
    assert(rest =~= chars.subrange(pos, chars.len() as int));
    match find_char(rest, '%') {
        None => {},
        Some(i) => {
            lemma_find_char(rest, '%');
            assert(rest.take(i) + seq!['%'] + rest.skip(i + 1) =~= rest);
        },
    }
}

/// Expands `%VAR%` placeholders from the given environment, leaving unknown
/// ones untouched: `%SystemRoot%\System32` becomes `C:\Windows\System32` when
/// `SystemRoot` is `C:\Windows`.
pub fn expand_env_placeholders(path: &str, environment: &Environment) -> (expanded: String)
    ensures
        expanded@ == expand_placeholders(path@, environment.variables()),
{
    let ghost variables = environment.variables();
    let chars = chars_of(path);
    let mut result = String::new();
    let mut pos: usize = 0;
    let length = chars.len();
    assert(chars@.skip(0) == chars@);
    loop
        invariant
            pos <= chars@.len(),
            length == chars@.len(),
            chars@ == path@,
            variables == environment.variables(),
            expand_placeholders(chars@, variables) == result@ + expand_placeholders(
                chars@.skip(pos as int),
                variables,
            ),
        decreases chars@.len() - pos,
    {
        let ghost before = result@;
        match find_from(&chars, '%', pos) {
            None => {
                proof {
                    lemma_expand_verbatim(chars@, pos as int, variables);
                }
                push_range(&mut result, chars.as_slice(), pos, chars.len());
                return result;
            },
            Some(start) => {
                match find_from(&chars, '%', start + 1) {
                    Some(end) => {
                        push_range(&mut result, chars.as_slice(), pos, start);
                        let mut name = String::new();
                        push_range(&mut name, chars.as_slice(), start + 1, end);
                        let ghost middle = result@;
                        match environment.get(&name) {
                            Some(value) => {
                                result.append(value.as_str());
                            },
                            None => {
                                result.push('%');
                                result.append(name.as_str());
                                result.push('%');
                                assert(result@ =~= middle + (seq!['%'] + name@ + seq!['%']));
                            },
                        }
                        proof {
                            lemma_expand_placeholder(
                                chars@,
                                pos as int,
                                start as int,
                                end as int,
                                variables,
                            );
                            lemma_concat_assoc(
                                before,
                                chars@.subrange(pos as int, start as int),
                                placeholder_value(name@, variables),
                            );
                            assert(before + (chars@.subrange(pos as int, start as int)
                                + placeholder_value(name@, variables) + expand_placeholders(
                                chars@.skip(end + 1),
                                variables,
                            )) =~= result@ + expand_placeholders(chars@.skip(end + 1), variables));
                        }
                        pos = end + 1;
                    },
                    None => {
                        proof {
                            assert(chars@.skip(pos as int).skip(start - pos + 1) =~= chars@.skip(
                                start + 1,
                            ));
                            lemma_expand_verbatim(chars@, pos as int, variables);
                        }
                        push_range(&mut result, chars.as_slice(), pos, chars.len());
                        return result;
                    },
                }
            },
        }
    }
}

/// An expected directory as it is compared: placeholders expanded, then
/// normalized.
pub open spec fn expected_home(directory: Seq<char>, variables: Seq<(Seq<char>, Seq<char>)>) -> Seq<
    char,
> {
    normalized_directory(expand_placeholders(directory, variables))
}

/// The explanation given for a masquerading process.
pub open spec fn masquerading_summary(
    name: Seq<char>,
    expected: Seq<Seq<char>>,
    directory: Seq<char>,
) -> Seq<char> {
    "'"@ + name + "' normally runs from "@ + joined(expected, " or "@)
        + ", but this copy is in "@ + directory
        + ". A trusted system name in an unexpected folder is a common malware disguise."@
}

/// What the masquerading rule concludes: nothing for a process whose path is
/// withheld, whose name is not in the database, or whose path has no
/// directory part, or that runs from one of its expected directories;
/// otherwise a `Suspicious` finding naming the expected and actual places.
pub open spec fn masquerading_finding(
    process: ProcessInfoView,
    known: Option<KnownProcessView>,
    variables: Seq<(Seq<char>, Seq<char>)>,
) -> Option<RiskFindingView> {
    match process.executable_path {
        None => None,
        Some(path) => match known {
            None => None,
            Some(entry) => match parent_of(path) {
                None => None,
                Some(directory) => if exists|i: int|
                    0 <= i < entry.expected_directories.len() && #[trigger] expected_home(
                        entry.expected_directories[i],
                        variables,
                    ) == normalized_directory(directory) {
                    None
                } else {
                    Some(
                        RiskFindingView {
                            severity: RiskLevel::Suspicious,
                            summary: masquerading_summary(
                                process.name,
                                entry.expected_directories.map_values(
                                    |d: Seq<char>| expand_placeholders(d, variables),
                                ),
                                directory,
                            ),
                        },
                    )
                },
            },
        },
    }
}

/// The masquerading rule judges only what it can: a process whose path the
/// OS withheld is never flagged, nor a name the database does not know, and
/// whatever it does flag is `Suspicious`.
pub proof fn lemma_masquerading_judges_only_known_paths(
    process: ProcessInfoView,
    known: Option<KnownProcessView>,
    variables: Seq<(Seq<char>, Seq<char>)>,
)
    ensures
        process.executable_path is None ==> masquerading_finding(process, known, variables) is None,
        known is None ==> masquerading_finding(process, known, variables) is None,
        masquerading_finding(process, known, variables) matches Some(finding) ==> finding.severity
            == RiskLevel::Suspicious,
{
}

/// A known process running from one of its expected directories (after
/// placeholder expansion and normalization) is never flagged.
pub proof fn lemma_expected_directory_is_never_flagged(
    process: ProcessInfoView,
    entry: KnownProcessView,
    variables: Seq<(Seq<char>, Seq<char>)>,
    path: Seq<char>,
    directory: Seq<char>,
    i: int,
)
    requires
        process.executable_path == Some(path),
        parent_of(path) == Some(directory),
        0 <= i < entry.expected_directories.len(),
        expected_home(entry.expected_directories[i], variables) == normalized_directory(directory),
    ensures
        masquerading_finding(process, Some(entry), variables) is None,
{
}

/// Flags a known Windows process name running from an unexpected directory --
/// a classic disguise (e.g. a `svchost.exe` in `Downloads` instead of
/// `System32`).
///
/// It only fires for names in the known-process database, and it stays silent
/// about a process whose real path the OS withheld rather than guess.
pub struct PathMasqueradingRule {
    environment: Environment,
}

impl PathMasqueradingRule {
    /// The environment variables used to expand expected directories.
    pub closed spec fn variables(&self) -> Seq<(Seq<char>, Seq<char>)> {
        self.environment.variables()
    }

    /// A rule that expands `%NAME%` placeholders from `environment`.
    pub fn new(environment: Environment) -> (rule: Self)
        ensures
            rule.variables() == environment.variables(),
    {
        PathMasqueradingRule { environment }
    }

    /// The expected directories of an entry with their placeholders expanded.
    fn expanded_directories(&self, known: &KnownProcess) -> (expanded: Vec<String>)
        ensures
            texts_view(expanded@) == known@.expected_directories.map_values(
                |d: Seq<char>| expand_placeholders(d, self.variables()),
            ),
    {
        let ghost goal = known@.expected_directories.map_values(
            |d: Seq<char>| expand_placeholders(d, self.variables()),
        );
        let mut expanded: Vec<String> = Vec::new();
        let mut i: usize = 0;
        while i < known.expected_directories.len()
            invariant
                i <= known.expected_directories@.len(),
                goal.len() == known.expected_directories@.len(),
                goal == known@.expected_directories.map_values(
                    |d: Seq<char>| expand_placeholders(d, self.variables()),
                ),
                expanded@.len() == i,
                forall|j: int| 0 <= j < i ==> #[trigger] expanded@[j]@ == goal[j],
            decreases known.expected_directories@.len() - i,
        {
            let one = expand_env_placeholders(
                known.expected_directories[i].as_str(),
                &self.environment,
            );
            expanded.push(one);
            i = i + 1;
        }
        assert(texts_view(expanded@) =~= goal);
        expanded
    }
}

impl RiskRule for PathMasqueradingRule {
    open spec fn finding_for(
        &self,
        process: ProcessInfoView,
        known: Option<KnownProcessView>,
    ) -> Option<RiskFindingView> {
        masquerading_finding(process, known, self.variables())
    }

    fn evaluate<K: ProcessKnowledgeRepository>(
        &self,
        process: &ProcessInfo,
        knowledge: &K,
    ) -> (finding: Option<RiskFinding>) {
        // No path (restricted): the location cannot be judged.
        let path = match &process.executable_path {
            Some(path) => path,
            None => return None,
        };
        // Only known names have an expected home to compare against.
        let known = match knowledge.lookup(process.name.as_str()) {
            Some(known) => known,
            None => return None,
        };
        let directory = match parent_directory(path.as_str()) {
            Some(directory) => directory,
            None => return None,
        };
        let actual = normalize_directory(directory.as_str());

        // In any of its expected directories, all is well.
        let mut i: usize = 0;
        while i < known.expected_directories.len()
            invariant
                i <= known.expected_directories@.len(),
                process@.executable_path == Some(path@),
                knowledge.known_entry(process@.name) == Some(known@),
                parent_of(path@) == Some(directory@),
                actual@ == normalized_directory(directory@),
                forall|j: int|
                    0 <= j < i ==> #[trigger] expected_home(
                        known@.expected_directories[j],
                        self.variables(),
                    ) != actual@,
            decreases known.expected_directories@.len() - i,
        {
            let expanded = expand_env_placeholders(
                known.expected_directories[i].as_str(),
                &self.environment,
            );
            let expected = normalize_directory(expanded.as_str());
            assert(known@.expected_directories[i as int] == known.expected_directories@[i as int]@);
            if expected == actual {
                assert(expected_home(known@.expected_directories[i as int], self.variables())
                    == normalized_directory(directory@));
                return None;
            }
            i = i + 1;
        }

        // Known name, wrong place.
        let expected_display = self.expanded_directories(&known);
        let mut summary = String::from_str("'");
        summary.append(process.name.as_str());
        summary.append("' normally runs from ");
        let listed = join(&expected_display, " or ");
        summary.append(listed.as_str());
        summary.append(", but this copy is in ");
        summary.append(directory.as_str());
        summary.append(
            ". A trusted system name in an unexpected folder is a common malware disguise.",
        );
        Some(RiskFinding::new(RiskLevel::Suspicious, summary.as_str()))
    }
}

/// The converse of [`lemma_expected_directory_is_never_flagged`]: a known
/// process whose directory, normalized, is none of its expected homes (each
/// expanded and normalized) is flagged `Suspicious` -- a directory that
/// merely lies inside an expected one (`C:\\Windows\\Temp` for
/// `C:\\Windows`) is not its home. The finding names the process, its
/// expected directories as expanded, and the directory it runs from.
pub proof fn lemma_unexpected_directory_is_flagged(
    rule: PathMasqueradingRule,
    process: ProcessInfoView,
    entry: KnownProcessView,
    path: Seq<char>,
    directory: Seq<char>,
)
    requires
        process.executable_path == Some(path),
        parent_of(path) == Some(directory),
        forall|i: int|
            0 <= i < entry.expected_directories.len() ==> #[trigger] expected_home(
                entry.expected_directories[i],
                rule.variables(),
            ) != normalized_directory(directory),
    ensures
        rule.finding_for(process, Some(entry)) is Some,
        rule.finding_for(process, Some(entry))->0.severity == RiskLevel::Suspicious,
        rule.finding_for(process, Some(entry))->0.summary == masquerading_summary(
            process.name,
            entry.expected_directories.map_values(
                |d: Seq<char>| expand_placeholders(d, rule.variables()),
            ),
            directory,
        ),
{
}

} // verus!
