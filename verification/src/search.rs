//! Pure file-search and directory-listing logic: matching a pattern in a
//! file's text, assembling a directory listing, and the binary-file
//! heuristics. Walking the file system and reading bytes stay with the
//! caller; everything that merely computes lives here.

use vstd::prelude::*;
use vstd::string::*;
use vstd::multiset::Multiset;
use crate::text::{
    to_chars, split_lines, lines, lex_le, lemma_lex_le_total, lemma_lex_le_trans,
    chars_le, chars_equal_ci, eq_ci, views_of,
};

verus! {

/// One file or directory of a listing.
pub struct FileInfo {
    pub name: String,
    pub path: String,
    pub is_directory: bool,
    pub size: Option<u64>,
    pub modified: Option<String>,
    pub file_type: Option<String>,
}

/// One match of a search pattern: the byte span of the match within the
/// line it was found on.
#[derive(Debug)]
pub struct SearchResult {
    pub file_path: String,
    pub line_number: usize,
    pub line_content: String,
    pub match_start: usize,
    pub match_end: usize,
}

/// A directory listing: files and subdirectories apart, each sorted by
/// name, with their counts.
pub struct DirectoryContents {
    pub files: Vec<FileInfo>,
    pub directories: Vec<FileInfo>,
    pub total_files: usize,
    pub total_directories: usize,
}

/// The byte spans of the successive non-overlapping matches of a
/// pattern in one line, or nothing when the pattern is invalid.
///
/// Relies on `regex::RegexBuilder::build` and `Regex::find_iter`; the
/// result is a function of the arguments alone.
pub uninterp spec fn regex_match_spans(
    pattern: Seq<char>,
    case_insensitive: bool,
    line: Seq<char>,
) -> Option<Seq<(usize, usize)>>;

/// Relies on `regex::RegexBuilder::build` and `Regex::find_iter` for the
/// match spans of `pattern` in `line`; `None` exactly when the pattern
/// is invalid.
#[verifier::external_body]
fn regex_find_spans(pattern: &str, case_insensitive: bool, line: &str) -> (r: Option<
    Vec<(usize, usize)>,
>)
    ensures
        match r {
            Some(v) => regex_match_spans(pattern@, case_insensitive, line@) == Some(v@),
            None => regex_match_spans(pattern@, case_insensitive, line@) is None,
        },
{
    let re = regex::RegexBuilder::new(pattern).case_insensitive(case_insensitive).build().ok()?;
    Some(re.find_iter(line).map(|m| (m.start(), m.end())).collect())
}

/// The view of one search result.
pub open spec fn result_view(r: SearchResult) -> (Seq<char>, int, Seq<char>, int, int) {
    (r.file_path@, r.line_number as int, r.line_content@, r.match_start as int, r.match_end as int)
}

/// The views of a result list.
pub open spec fn result_views(rs: Seq<SearchResult>) -> Seq<(Seq<char>, int, Seq<char>, int, int)> {
    rs.map_values(|r: SearchResult| result_view(r))
}

/// What one line contributes: one result per match span, carrying the
/// file, the one-based line number and the line's text.
pub open spec fn line_results(
    file: Seq<char>,
    num: int,
    pattern: Seq<char>,
    ci: bool,
    line: Seq<char>,
) -> Seq<(Seq<char>, int, Seq<char>, int, int)> {
    match regex_match_spans(pattern, ci, line) {
        Some(sp) => sp.map_values(|p: (usize, usize)| (file, num, line, p.0 as int, p.1 as int)),
        None => Seq::empty(),
    }
}

/// What a whole file contributes, line by line, in order.
pub open spec fn spec_search(
    file: Seq<char>,
    pattern: Seq<char>,
    ci: bool,
    ls: Seq<Seq<char>>,
) -> Seq<(Seq<char>, int, Seq<char>, int, int)>
    decreases ls.len(),
{
    if ls.len() == 0 {
        Seq::empty()
    } else {
        spec_search(file, pattern, ci, ls.drop_last()) + line_results(
            file,
            ls.len() as int,
            pattern,
            ci,
            ls.last(),
        )
    }
}

/// Searches one file's text for a pattern, line by line. The pattern is
/// matched case-insensitively unless asked otherwise; an invalid pattern
/// is reported and nothing is searched.
pub fn search_in_content(
    file_path: &str,
    content: &str,
    pattern: &str,
    case_sensitive: bool,
) -> (r: Result<Vec<SearchResult>, String>)
    ensures
        match r {
            Ok(out) => {
                &&& regex_match_spans(pattern@, !case_sensitive, Seq::<char>::empty()) is Some
                &&& result_views(out@) == spec_search(
                    file_path@,
                    pattern@,
                    !case_sensitive,
                    lines(content@),
                )
            },
            Err(e) => {
                &&& regex_match_spans(pattern@, !case_sensitive, Seq::<char>::empty()) is None
                &&& e@ == "Invalid regex pattern"@
            },
        },
{
    let ci = !case_sensitive;
    if regex_find_spans(pattern, ci, "").is_none() {
        proof {
            reveal_strlit("");
            assert(""@ =~= Seq::<char>::empty());
        }
        return Err(String::from_str("Invalid regex pattern"));
    }
    proof {
        reveal_strlit("");
        assert(""@ =~= Seq::<char>::empty());
    }
    let v = to_chars(content);
    let ls = split_lines(&v);
    let n = ls.len();
    let mut out: Vec<SearchResult> = Vec::new();
    let mut i: usize = 0;
    proof {
        assert(result_views(out@) =~= spec_search(
            file_path@,
            pattern@,
            ci,
            views_of(ls@).take(0),
        ));
    }
    while i < n
        invariant
            n == ls@.len(),
            i <= n,
            views_of(ls@) == lines(content@),
            result_views(out@) == spec_search(file_path@, pattern@, ci, views_of(ls@).take(i as int)),
        decreases n - i,
    {
        proof {
            assert(views_of(ls@).take(i + 1 as int).drop_last() =~= views_of(ls@).take(i as int));
            assert(views_of(ls@).take(i + 1 as int).last() == ls@[i as int]@);
            assert(views_of(ls@).take(i + 1 as int).len() == i + 1);
        }
        match regex_find_spans(pattern, ci, ls[i].as_str()) {
            Some(spans) => {
                let m = spans.len();
                let mut j: usize = 0;
                let ghost contribution = line_results(
                    file_path@,
                    i + 1 as int,
                    pattern@,
                    ci,
                    ls@[i as int]@,
                );
                proof {
                    assert(contribution == spans@.map_values(
                        |p: (usize, usize)|
                            (file_path@, i + 1 as int, ls@[i as int]@, p.0 as int, p.1 as int),
                    ));
                }
                while j < m
                    invariant
                        m == spans@.len(),
                        j <= m,
                        i < n == ls@.len(),
                        contribution == spans@.map_values(
                            |p: (usize, usize)|
                                (file_path@, i + 1 as int, ls@[i as int]@, p.0 as int, p.1 as int),
                        ),
                        result_views(out@) == spec_search(
                            file_path@,
                            pattern@,
                            ci,
                            views_of(ls@).take(i as int),
                        ) + contribution.take(j as int),
                    decreases m - j,
                {
                    let (s, e) = spans[j];
                    let res = SearchResult {
                        file_path: String::from_str(file_path),
                        line_number: i + 1,
                        line_content: ls[i].clone(),
                        match_start: s,
                        match_end: e,
                    };
                    proof {
                        assert(result_views(out@.push(res)) =~= result_views(out@).push(
                            result_view(res),
                        ));
                        assert(contribution.take(j + 1 as int) =~= contribution.take(
                            j as int,
                        ).push(contribution[j as int]));
                        assert(contribution[j as int] == result_view(res));
                    }
                    out.push(res);
                    proof {
                        assert(result_views(out@) =~= spec_search(
                            file_path@,
                            pattern@,
                            ci,
                            views_of(ls@).take(i as int),
                        ) + contribution.take(j + 1 as int));
                    }
                    j += 1;
                }
                proof {
                    assert(contribution.take(m as int) =~= contribution);
                    assert(result_views(out@) =~= spec_search(
                        file_path@,
                        pattern@,
                        ci,
                        views_of(ls@).take(i + 1 as int),
                    ));
                }
            },
            None => {
                proof {
                    assert(line_results(file_path@, i + 1 as int, pattern@, ci, ls@[i as int]@)
                        =~= Seq::<(Seq<char>, int, Seq<char>, int, int)>::empty());
                    assert(result_views(out@) =~= spec_search(
                        file_path@,
                        pattern@,
                        ci,
                        views_of(ls@).take(i + 1 as int),
                    ));
                }
            },
        }
        i += 1;
    }
    proof {
        assert(views_of(ls@).take(n as int) =~= views_of(ls@));
    }
    Ok(out)
}

/// Caps a result list: everything is kept when no cap is set, else the
/// first `max` results.
pub fn apply_result_cap(results: &mut Vec<SearchResult>, max_results: Option<u64>)
    ensures
        match max_results {
            None => final(results)@ == old(results)@,
            Some(m) => if old(results)@.len() <= m {
                final(results)@ == old(results)@
            } else {
                final(results)@ == old(results)@.take(m as int)
            },
        },
{
    match max_results {
        Some(m) => {
            if (results.len() as u64) > m {
                results.truncate(m as usize);
                proof {
                    assert(results@ =~= old(results)@.take(m as int));
                }
            }
        },
        None => {},
    }
}

/// The extensions treated as binary without looking at the bytes.
pub open spec fn binary_extension_names() -> Seq<Seq<char>> {
    seq![
        "exe"@, "dll"@, "so"@, "dylib"@, "bin"@, "dat"@, "db"@, "sqlite"@, "sqlite3"@, "jpg"@,
        "jpeg"@, "png"@, "gif"@, "bmp"@, "ico"@, "webp"@, "svg"@, "mp3"@, "wav"@, "flac"@, "ogg"@,
        "mp4"@, "avi"@, "mkv"@, "mov"@, "zip"@, "rar"@, "7z"@, "tar"@, "gz"@, "bz2"@, "xz"@,
        "pdf"@, "doc"@, "docx"@, "xls"@, "xlsx"@, "ppt"@, "pptx"@,
    ]
}

/// `ext` names, up to ASCII case, one of the fixed binary extensions.
pub open spec fn is_binary_ext(ext: Seq<char>) -> bool {
    exists|k: int|
        0 <= k < binary_extension_names().len() && eq_ci(ext, binary_extension_names()[k])
}

fn binary_extension_list() -> (r: Vec<String>)
    ensures
        views_of(r@) == binary_extension_names(),
{
    let mut r: Vec<String> = Vec::new();
    r.push(String::from_str("exe"));
    r.push(String::from_str("dll"));
    r.push(String::from_str("so"));
    r.push(String::from_str("dylib"));
    r.push(String::from_str("bin"));
    r.push(String::from_str("dat"));
    r.push(String::from_str("db"));
    r.push(String::from_str("sqlite"));
    r.push(String::from_str("sqlite3"));
    r.push(String::from_str("jpg"));
    r.push(String::from_str("jpeg"));
    r.push(String::from_str("png"));
    r.push(String::from_str("gif"));
    r.push(String::from_str("bmp"));
    r.push(String::from_str("ico"));
    r.push(String::from_str("webp"));
    r.push(String::from_str("svg"));
    r.push(String::from_str("mp3"));
    r.push(String::from_str("wav"));
    r.push(String::from_str("flac"));
    r.push(String::from_str("ogg"));
    r.push(String::from_str("mp4"));
    r.push(String::from_str("avi"));
    r.push(String::from_str("mkv"));
    r.push(String::from_str("mov"));
    r.push(String::from_str("zip"));
    r.push(String::from_str("rar"));
    r.push(String::from_str("7z"));
    r.push(String::from_str("tar"));
    r.push(String::from_str("gz"));
    r.push(String::from_str("bz2"));
    r.push(String::from_str("xz"));
    r.push(String::from_str("pdf"));
    r.push(String::from_str("doc"));
    r.push(String::from_str("docx"));
    r.push(String::from_str("xls"));
    r.push(String::from_str("xlsx"));
    r.push(String::from_str("ppt"));
    r.push(String::from_str("pptx"));
    proof {
        assert(views_of(r@) =~= binary_extension_names());
    }
    r
}

/// Whether a file extension marks the file as binary, compared up to
/// ASCII case.
pub fn is_binary_extension(ext: &str) -> (r: bool)
    ensures
        r == is_binary_ext(ext@),
{
    let e = to_chars(ext);
    let names = binary_extension_list();
    let n = names.len();
    let mut k: usize = 0;
    while k < n
        invariant
            n == names@.len(),
            views_of(names@) == binary_extension_names(),
            e@ == ext@,
            k <= n,
            forall|t: int| 0 <= t < k ==> !eq_ci(ext@, binary_extension_names()[t]),
        decreases n - k,
    {
        let cand = to_chars(names[k].as_str());
        if chars_equal_ci(&e, &cand) {
            proof {
                assert(eq_ci(ext@, binary_extension_names()[k as int]));
            }
            return true;
        }
        k += 1;
    }
    false
}

/// Whether a sniffed prefix of a file holds a zero byte — the content
/// test for a binary file.
pub fn contains_nul(buf: &Vec<u8>) -> (r: bool)
    ensures
        r == buf@.contains(0),
{
    let n = buf.len();
    let mut i: usize = 0;
    while i < n
        invariant
            n == buf@.len(),
            i <= n,
            forall|j: int| 0 <= j < i ==> buf@[j] != 0,
        decreases n - i,
    {
        if buf[i] == 0 {
            return true;
        }
        i += 1;
    }
    proof {
        assert(!buf@.contains(0));
    }
    false
}

/// The listing is sorted by name.
pub open spec fn sorted_by_name(s: Seq<FileInfo>) -> bool {
    forall|i: int, j: int| 0 <= i < j < s.len() ==> lex_le(s[i].name@, s[j].name@)
}

/// Sorts a listing by name; the result holds exactly the given entries.
pub fn sort_by_name(v: Vec<FileInfo>) -> (r: Vec<FileInfo>)
    ensures
        sorted_by_name(r@),
        r@.to_multiset() == v@.to_multiset(),
{
    broadcast use vstd::multiset::group_multiset_axioms;

    let mut rest = v;
    let mut out: Vec<FileInfo> = Vec::new();
    proof {
        out@.to_multiset_ensures();
        assert(out@.to_multiset().add(rest@.to_multiset()) =~= rest@.to_multiset());
    }
    while rest.len() > 0
        invariant
            sorted_by_name(out@),
            forall|i: int, k: int|
                0 <= i < out@.len() && 0 <= k < rest@.len() ==> lex_le(
                    out@[i].name@,
                    rest@[k].name@,
                ),
            out@.to_multiset().add(rest@.to_multiset()) == v@.to_multiset(),
        decreases rest@.len(),
    {
        let n = rest.len();
        let mut m: usize = 0;
        let mut j: usize = 1;
        proof {
            lemma_lex_le_total(rest@[0].name@, rest@[0].name@);
        }
        while j < n
            invariant
                n == rest@.len(),
                m < n,
                j <= n,
                forall|k: int| 0 <= k < j ==> lex_le(rest@[m as int].name@, rest@[k].name@),
            decreases n - j,
        {
            let a = to_chars(rest[m].name.as_str());
            let b = to_chars(rest[j].name.as_str());
            if !chars_le(&a, &b) {
                proof {
                    lemma_lex_le_total(rest@[m as int].name@, rest@[j as int].name@);
                    assert forall|k: int| 0 <= k < j + 1 implies lex_le(
                        rest@[j as int].name@,
                        rest@[k as int].name@,
                    ) by {
                        if k < j {
                            lemma_lex_le_trans(
                                rest@[j as int].name@,
                                rest@[m as int].name@,
                                rest@[k as int].name@,
                            );
                        } else {
                            lemma_lex_le_total(rest@[j as int].name@, rest@[j as int].name@);
                        }
                    }
                }
                m = j;
            } else {
                proof {
                    assert(lex_le(rest@[m as int].name@, rest@[j as int].name@));
                }
            }
            j += 1;
        }
        let ghost rest_pre = rest@;
        let ghost out_pre = out@;
        let e = rest.remove(m);
        proof {
            rest_pre.to_multiset_ensures();
            assert(rest_pre.contains(e));
            assert(rest_pre.to_multiset().count(e) > 0);
            assert(rest_pre.remove(m as int).to_multiset() =~= rest_pre.to_multiset().remove(e));
        }
        out.push(e);
        proof {
            out_pre.to_multiset_ensures();
            assert(out@.to_multiset() =~= out_pre.to_multiset().insert(e));
            // every remaining entry sits at an index of the old list
            assert forall|k: int| 0 <= k < rest@.len() implies lex_le(e.name@, rest@[k].name@) by {
                if k < m {
                    assert(rest@[k] == rest_pre[k]);
                } else {
                    assert(rest@[k] == rest_pre[k + 1]);
                }
            }
            assert forall|i: int, k: int|
                0 <= i < out@.len() && 0 <= k < rest@.len() implies lex_le(
                out@[i].name@,
                rest@[k].name@,
            ) by {
                if i < out_pre.len() {
                    if k < m {
                        assert(rest@[k] == rest_pre[k]);
                    } else {
                        assert(rest@[k] == rest_pre[k + 1]);
                    }
                } else {
                    assert(out@[i] == e);
                }
            }
            assert(sorted_by_name(out@));
            assert(out@.to_multiset().add(rest@.to_multiset()) =~= v@.to_multiset());
        }
    }
    proof {
        broadcast use vstd::multiset::group_multiset_axioms;

        rest@.to_multiset_ensures();
        assert(rest@.to_multiset() =~= Multiset::<FileInfo>::empty());
        assert(out@.to_multiset() =~= v@.to_multiset());
    }
    out
}

/// Assembles a directory listing out of raw entries: files and
/// directories are parted, each part is sorted by name, and the totals
/// are their counts.
pub fn assemble_directory_contents(entries: Vec<FileInfo>) -> (r: DirectoryContents)
    ensures
        sorted_by_name(r.files@),
        sorted_by_name(r.directories@),
        forall|i: int| 0 <= i < r.files@.len() ==> !r.files@[i].is_directory,
        forall|i: int| 0 <= i < r.directories@.len() ==> r.directories@[i].is_directory,
        r.files@.to_multiset().add(r.directories@.to_multiset()) == entries@.to_multiset(),
        r.total_files == r.files@.len(),
        r.total_directories == r.directories@.len(),
{
    broadcast use vstd::multiset::group_multiset_axioms;

    let ghost orig = entries@;
    let mut fs: Vec<FileInfo> = Vec::new();
    let mut ds: Vec<FileInfo> = Vec::new();
    let mut entries = entries;
    proof {
        fs@.to_multiset_ensures();
        ds@.to_multiset_ensures();
        assert(fs@.to_multiset().add(ds@.to_multiset()).add(entries@.to_multiset())
            =~= orig.to_multiset());
    }
    while entries.len() > 0
        invariant
            forall|k: int| 0 <= k < fs@.len() ==> !fs@[k].is_directory,
            forall|k: int| 0 <= k < ds@.len() ==> ds@[k].is_directory,
            fs@.to_multiset().add(ds@.to_multiset()).add(entries@.to_multiset())
                == orig.to_multiset(),
        decreases entries@.len(),
    {
        let ghost entries_pre = entries@;
        let ghost fs_pre = fs@;
        let ghost ds_pre = ds@;
        let e = entries.remove(0);
        proof {
            entries_pre.to_multiset_ensures();
            assert(entries_pre.contains(e));
            assert(entries_pre.to_multiset().count(e) > 0);
            assert(entries_pre.remove(0).to_multiset() =~= entries_pre.to_multiset().remove(e));
        }
        if e.is_directory {
            ds.push(e);
        } else {
            fs.push(e);
        }
        proof {
            fs_pre.to_multiset_ensures();
            ds_pre.to_multiset_ensures();
            if e.is_directory {
                assert(ds@.to_multiset() =~= ds_pre.to_multiset().insert(e));
            } else {
                assert(fs@.to_multiset() =~= fs_pre.to_multiset().insert(e));
            }
            assert(fs@.to_multiset().add(ds@.to_multiset()) =~= fs_pre.to_multiset().add(
                ds_pre.to_multiset(),
            ).insert(e));
            assert(fs@.to_multiset().add(ds@.to_multiset()).add(entries@.to_multiset())
                =~= fs_pre.to_multiset().add(ds_pre.to_multiset()).add(
                entries_pre.to_multiset(),
            ));
            assert(fs@.to_multiset().add(ds@.to_multiset()).add(entries@.to_multiset())
                =~= orig.to_multiset());
        }
    }
    proof {
        entries@.to_multiset_ensures();
        assert(entries@.to_multiset() =~= Multiset::<FileInfo>::empty());
        assert(fs@.to_multiset().add(ds@.to_multiset()) =~= orig.to_multiset());
    }
    let files = sort_by_name(fs);
    let directories = sort_by_name(ds);
    proof {
        files@.to_multiset_ensures();
        fs@.to_multiset_ensures();
        assert forall|i: int| 0 <= i < files@.len() implies !files@[i].is_directory by {
            assert(files@.contains(files@[i]));
            assert(files@.to_multiset().count(files@[i]) > 0);
            assert(fs@.to_multiset().count(files@[i]) > 0);
            assert(fs@.contains(files@[i]));
            let k = choose|k: int| 0 <= k < fs@.len() && fs@[k] == files@[i];
            assert(!fs@[k].is_directory);
        }
        directories@.to_multiset_ensures();
        ds@.to_multiset_ensures();
        assert forall|i: int| 0 <= i < directories@.len() implies directories@[i].is_directory by {
            assert(directories@.contains(directories@[i]));
            assert(directories@.to_multiset().count(directories@[i]) > 0);
            assert(ds@.to_multiset().count(directories@[i]) > 0);
            assert(ds@.contains(directories@[i]));
            let k = choose|k: int| 0 <= k < ds@.len() && ds@[k] == directories@[i];
            assert(ds@[k].is_directory);
        }
    }
    let total_files = files.len();
    let total_directories = directories.len();
    DirectoryContents { files, directories, total_files, total_directories }
}

} // verus!
