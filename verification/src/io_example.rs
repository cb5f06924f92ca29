use vstd::prelude::*;

verus! {

/// What a search is asked to do.
pub struct Config {
    pub query: String,
    pub filename: String,
    pub case_sensitive: bool,
}

/// The lines of a text, as `str::lines` of the standard library cuts them.
pub uninterp spec fn lines_of(text: Seq<char>) -> Seq<Seq<char>>;

/// A text in lower case, as `str::to_lowercase` of the standard library
/// writes it.
pub uninterp spec fn lowercase_of(text: Seq<char>) -> Seq<char>;

/// Whether `pattern` stands somewhere in `text`, character for character.
pub open spec fn contains(text: Seq<char>, pattern: Seq<char>) -> bool {
    exists|start: int|
        0 <= start && start + pattern.len() <= text.len() && #[trigger] text.subrange(
            start,
            start + pattern.len(),
        ) == pattern
}

/// Calls `str::lines` of the standard library and collects what it hands
/// out. Nothing is claimed of the lines but that they are the ones that this
/// function gives for this text.
#[verifier::external_body]
fn lines<'a>(contents: &'a str) -> (lines: Vec<&'a str>)
    ensures
        lines.deep_view() == lines_of(contents@),
{
    contents.lines().collect()
}

/// Calls `str::contains` of the standard library with a text as the
/// pattern, which says whether the pattern matches a part of the text.
#[verifier::external_body]
fn str_contains(text: &str, pattern: &str) -> (found: bool)
    ensures
        found == contains(text@, pattern@),
{
    text.contains(pattern)
}

/// Calls `str::to_lowercase` of the standard library. Nothing is claimed of
/// the result but that it is the one that this function gives for this text.
#[verifier::external_body]
fn lowercase(text: &str) -> (lower: String)
    ensures
        lower@ == lowercase_of(text@),
{
    text.to_lowercase()
}

impl Config {
    /// Reads a configuration from the arguments of a program: the query is
    /// the second argument, the file name the third. Whether the search
    /// minds the case is the caller's to say.
    pub fn new(args: &[String], case_sensitive: bool) -> (r: Result<Config, &'static str>)
        ensures
            args@.len() < 3 ==> (r matches Err(message) && message@ == "not enough arguments"@),
            args@.len() >= 3 ==> (r matches Ok(config) && config.query == args@[1]
                && config.filename == args@[2] && config.case_sensitive == case_sensitive),
    {
        if args.len() < 3 {
            return Err("not enough arguments");
        }
        let query = args[1].clone();
        let filename = args[2].clone();
        Ok(Config { query, filename, case_sensitive })
    }

    /// Reads a configuration from a row of arguments that is taken from the
    /// front: the query is the first, the file name the second.
    pub fn new_instance(args: &[String], case_sensitive: bool) -> (r: Result<
        Config,
        &'static str,
    >)
        ensures
            args@.len() == 0 ==> (r matches Err(message) && message@
                == "Didn't get a query string"@),
            args@.len() == 1 ==> (r matches Err(message) && message@
                == "Didn't get a file name"@),
            args@.len() >= 2 ==> (r matches Ok(config) && config.query == args@[0]
                && config.filename == args@[1] && config.case_sensitive == case_sensitive),
    {
        if args.len() == 0 {
            return Err("Didn't get a query string");
        }
        let query = args[0].clone();
        if args.len() == 1 {
            return Err("Didn't get a file name");
        }
        let filename = args[1].clone();
        Ok(Config { query, filename, case_sensitive })
    }
}

/// Those of `lines` in which `query` stands, in the order in which they
/// came.
pub fn matching_lines<'a>(lines: Vec<&'a str>, query: &str) -> (results: Vec<&'a str>)
    ensures
        results.deep_view() == lines.deep_view().filter(|line: Seq<char>| contains(line, query@)),
{
    let ghost holds = |line: Seq<char>| contains(line, query@);
    let mut results: Vec<&'a str> = Vec::new();
    let mut i: usize = 0;
    assert(results.deep_view() =~= lines.deep_view().take(0).filter(holds));
    while i < lines.len()
        invariant
            i <= lines@.len(),
            holds == (|line: Seq<char>| contains(line, query@)),
            results.deep_view() == lines.deep_view().take(i as int).filter(holds),
        decreases lines@.len() - i,
    {
        let line = lines[i];
        let ghost before = results.deep_view();
        if str_contains(line, query) {
            results.push(line);
            assert(results.deep_view() =~= before.push(line@));
        }
        proof {
            let seen = lines.deep_view().take(i as int);
            let next = lines.deep_view().take(i as int + 1);
            assert(next =~= seen.push(line@));
            assert(next.drop_last() =~= seen);
            reveal(Seq::filter);
        }
        i = i + 1;
    }
    assert(lines.deep_view().take(lines@.len() as int) =~= lines.deep_view());
    results
}

/// The lines of `contents` in which `query` stands, in their order.
pub fn search<'a>(query: &str, contents: &'a str) -> (results: Vec<&'a str>)
    ensures
        results.deep_view() == lines_of(contents@).filter(
            |line: Seq<char>| contains(line, query@),
        ),
{
    matching_lines(lines(contents), query)
}

/// The lines of `contents` in which `query` stands, in their order.
pub fn search_iter<'a>(query: &str, contents: &'a str) -> (results: Vec<&'a str>)
    ensures
        results.deep_view() == lines_of(contents@).filter(
            |line: Seq<char>| contains(line, query@),
        ),
{
    search(query, contents)
}

/// Those of `lines` whose key holds `query`: line `i` is kept where
/// `query` stands in key `i`. The lines come out in their order.
pub open spec fn selected(lines: Seq<Seq<char>>, keys: Seq<Seq<char>>, query: Seq<char>) -> Seq<
    Seq<char>,
>
    decreases lines.len(),
{
    if lines.len() == 0 {
        Seq::empty()
    } else {
        let before = selected(lines.drop_last(), keys.drop_last(), query);
        if contains(keys.last(), query) {
            before.push(lines.last())
        } else {
            before
        }
    }
}

/// Where each key is its line in lower case, the lines that are selected
/// are the lines whose lower case holds the query.
proof fn lemma_selected_by_lowercase(lines: Seq<Seq<char>>, keys: Seq<Seq<char>>, query: Seq<char>)
    requires
        keys.len() == lines.len(),
        forall|i: int| 0 <= i < lines.len() ==> keys[i] == lowercase_of(#[trigger] lines[i]),
    ensures
        selected(lines, keys, query) == lines.filter(
            |line: Seq<char>| contains(lowercase_of(line), query),
        ),
    decreases lines.len(),
{
    reveal(Seq::filter);
    if lines.len() > 0 {
        lemma_selected_by_lowercase(lines.drop_last(), keys.drop_last(), query);
    }
}

/// Those of `lines` whose key holds `query`, in the order in which they
/// came. There is one key for each line.
pub fn matching_lines_by_key<'a>(lines: Vec<&'a str>, keys: Vec<String>, query: &str) -> (results:
    Vec<&'a str>)
    requires
        keys@.len() == lines@.len(),
    ensures
        results.deep_view() == selected(lines.deep_view(), keys.deep_view(), query@),
{
    let mut results: Vec<&'a str> = Vec::new();
    let mut i: usize = 0;
    while i < lines.len()
        invariant
            i <= lines@.len(),
            keys@.len() == lines@.len(),
            results.deep_view() == selected(
                lines.deep_view().take(i as int),
                keys.deep_view().take(i as int),
                query@,
            ),
        decreases lines@.len() - i,
    {
        let line = lines[i];
        let ghost before = results.deep_view();
        proof {
            let seen = lines.deep_view().take(i as int);
            let next = lines.deep_view().take(i as int + 1);
            assert(next.drop_last() =~= seen);
            assert(next.last() == line@);
            let seen_keys = keys.deep_view().take(i as int);
            let next_keys = keys.deep_view().take(i as int + 1);
            assert(next_keys.drop_last() =~= seen_keys);
            assert(next_keys.last() == keys@[i as int]@);
        }
        if str_contains(keys[i].as_str(), query) {
            results.push(line);
            assert(results.deep_view() =~= before.push(line@));
        }
        i = i + 1;
    }
    assert(lines.deep_view().take(lines@.len() as int) =~= lines.deep_view());
    assert(keys.deep_view().take(lines@.len() as int) =~= keys.deep_view());
    results
}

/// The lines of `contents` in which `query` stands when both are written in
/// lower case, in their order and as they were written.
pub fn search_case_insensitive<'a>(query: &str, contents: &'a str) -> (results: Vec<&'a str>)
    ensures
        results.deep_view() == lines_of(contents@).filter(
            |line: Seq<char>| contains(lowercase_of(line), lowercase_of(query@)),
        ),
{
    let query = lowercase(query);
    let lines = lines(contents);
    let mut keys: Vec<String> = Vec::new();
    let mut i: usize = 0;
    while i < lines.len()
        invariant
            i <= lines@.len(),
            keys@.len() == i,
            forall|k: int| 0 <= k < i ==> (#[trigger] keys@[k])@ == lowercase_of(lines@[k]@),
        decreases lines@.len() - i,
    {
        keys.push(lowercase(lines[i]));
        i = i + 1;
    }
    proof {
        assert forall|k: int| 0 <= k < lines.deep_view().len() implies keys.deep_view()[k]
            == lowercase_of(#[trigger] lines.deep_view()[k]) by {
            assert(keys.deep_view()[k] == keys@[k]@);
            assert(lines.deep_view()[k] == lines@[k]@);
        }
        lemma_selected_by_lowercase(lines.deep_view(), keys.deep_view(), query@);
    }
    matching_lines_by_key(lines, keys, query.as_str())
}

/// The lines of `contents` in which `query` stands when both are written in
/// lower case, in their order and as they were written.
pub fn search_case_insensitive_iter<'a>(query: &str, contents: &'a str) -> (results: Vec<
    &'a str,
>)
    ensures
        results.deep_view() == lines_of(contents@).filter(
            |line: Seq<char>| contains(lowercase_of(line), lowercase_of(query@)),
        ),
{
    search_case_insensitive(query, contents)
}

/// The lines that a search with `config` finds in `contents`, the contents
/// of the file that it names: with the case minded or not, as it says.
pub fn run<'a>(config: &Config, contents: &'a str) -> (results: Vec<&'a str>)
    ensures
        config.case_sensitive ==> results.deep_view() == lines_of(contents@).filter(
            |line: Seq<char>| contains(line, config.query@),
        ),
        !config.case_sensitive ==> results.deep_view() == lines_of(contents@).filter(
            |line: Seq<char>| contains(lowercase_of(line), lowercase_of(config.query@)),
        ),
{
    if config.case_sensitive {
        search(config.query.as_str(), contents)
    } else {
        search_case_insensitive(config.query.as_str(), contents)
    }
}

/// The lines that a search with `config` finds in `contents`, the contents
/// of the file that it names: with the case minded or not, as it says.
pub fn run_iter<'a>(config: &Config, contents: &'a str) -> (results: Vec<&'a str>)
    ensures
        config.case_sensitive ==> results.deep_view() == lines_of(contents@).filter(
            |line: Seq<char>| contains(line, config.query@),
        ),
        !config.case_sensitive ==> results.deep_view() == lines_of(contents@).filter(
            |line: Seq<char>| contains(lowercase_of(line), lowercase_of(config.query@)),
        ),
{
    if config.case_sensitive {
        search_iter(config.query.as_str(), contents)
    } else {
        search_case_insensitive_iter(config.query.as_str(), contents)
    }
}

} // verus!
