//! Documentation-comment parsing.
//!
//! Scans a Lua script for comment regions and extracts the function
//! signature documented as `@function build_badge`: its name, description
//! and `@param`/`@tparam` parameters.
use vstd::prelude::*;
use vstd::string::StrSliceExecFns;
use vstd::string::StringExecFns;

verus! {

/// Unicode whitespace (the `White_Space` property): the characters that
/// separate chunks and that trimming removes.
pub open spec fn is_space(c: char) -> bool {
    let u = c as int;
    (9 <= u <= 13) || u == 0x20 || u == 0x85 || u == 0xA0 || u == 0x1680 || (0x2000 <= u
        <= 0x200A) || u == 0x2028 || u == 0x2029 || u == 0x202F || u == 0x205F || u == 0x3000
}

/// Whether `c` is Unicode whitespace.
pub fn is_space_exec(c: char) -> (r: bool)
    ensures
        r == is_space(c),
{
    let u: u32 = c as u32;
    (9 <= u && u <= 13) || u == 0x20 || u == 0x85 || u == 0xA0 || u == 0x1680 || (0x2000 <= u && u
        <= 0x200A) || u == 0x2028 || u == 0x2029 || u == 0x202F || u == 0x205F || u == 0x3000
}

/// A line with one trailing carriage return removed (the remains of a
/// CRLF line ending).
pub open spec fn strip_cr(l: Seq<char>) -> Seq<char> {
    if l.len() > 0 && l.last() == '\r' {
        l.drop_last()
    } else {
        l
    }
}

/// Scanning the first `n` characters for line breaks: the completed lines
/// and the partial line after them.
pub open spec fn lines_fold(s: Seq<char>, n: int) -> (Seq<Seq<char>>, Seq<char>)
    decreases n,
{
    if n <= 0 {
        (Seq::<Seq<char>>::empty(), Seq::<char>::empty())
    } else {
        let p = lines_fold(s, n - 1);
        if s[n - 1] == '\n' {
            (p.0.push(strip_cr(p.1)), Seq::<char>::empty())
        } else {
            (p.0, p.1.push(s[n - 1]))
        }
    }
}

/// The lines of a text: split at `'\n'`, with a `'\r'` before the break
/// removed; a final line ending is optional.
pub open spec fn lines_of(s: Seq<char>) -> Seq<Seq<char>> {
    let p = lines_fold(s, s.len() as int);
    if p.1.len() > 0 {
        p.0.push(p.1)
    } else {
        p.0
    }
}

/// A text without its leading whitespace.
pub open spec fn trim_start(s: Seq<char>) -> Seq<char>
    decreases s.len(),
{
    if s.len() > 0 && is_space(s.first()) {
        trim_start(s.drop_first())
    } else {
        s
    }
}

/// A text without its trailing whitespace.
pub open spec fn trim_end(s: Seq<char>) -> Seq<char>
    decreases s.len(),
{
    if s.len() > 0 && is_space(s.last()) {
        trim_end(s.drop_last())
    } else {
        s
    }
}

/// A text without leading and trailing whitespace.
pub open spec fn trim_of(s: Seq<char>) -> Seq<char> {
    trim_end(trim_start(s))
}

/// Dropping `k` all-whitespace leading characters, up to the first
/// non-whitespace one, is exactly `trim_start`.
proof fn lemma_trim_start(s: Seq<char>, k: int)
    requires
        0 <= k <= s.len(),
        forall|j: int| 0 <= j < k ==> is_space(#[trigger] s[j]),
        k < s.len() ==> !is_space(s[k]),
    ensures
        trim_start(s) == s.skip(k),
    decreases k,
{
    if k == 0 {
        assert(s.skip(0) =~= s);
    } else {
        let t = s.drop_first();
        lemma_trim_start(t, k - 1);
        assert(t.skip(k - 1) =~= s.skip(k));
    }
}

/// Keeping the first `m` characters, after which only whitespace follows,
/// is exactly `trim_end`.
proof fn lemma_trim_end(s: Seq<char>, m: int)
    requires
        0 <= m <= s.len(),
        forall|j: int| m <= j < s.len() ==> is_space(#[trigger] s[j]),
        m > 0 ==> !is_space(s[m - 1]),
    ensures
        trim_end(s) == s.take(m),
    decreases s.len() - m,
{
    if m == s.len() {
        assert(s.take(m) =~= s);
        if s.len() > 0 && is_space(s.last()) {
            let t = s.drop_last();
            lemma_trim_end(t, m - 1);
            assert(t.take(m - 1) =~= s.take(m - 1));
            assert(false);
        }
    } else {
        let t = s.drop_last();
        lemma_trim_end(t, m);
        assert(t.take(m) =~= s.take(m));
    }
}

/// Narrows `[a, b)` within `s` to the trimmed extent of that window.
fn trim_range(s: &str, a: usize, b: usize) -> (r: (usize, usize))
    requires
        a <= b <= s@.len(),
    ensures
        a <= r.0 <= r.1 <= b,
        s@.subrange(r.0 as int, r.1 as int) == trim_of(s@.subrange(a as int, b as int)),
{
    let ghost line = s@.subrange(a as int, b as int);
    let mut lo: usize = a;
    while lo < b && is_space_exec(s.get_char(lo))
        invariant
            a <= lo <= b <= s@.len(),
            forall|j: int| a <= j < lo ==> is_space(#[trigger] s@[j]),
        decreases b - lo,
    {
        lo = lo + 1;
    }
    let mut hi: usize = b;
    while hi > lo && is_space_exec(s.get_char(hi - 1))
        invariant
            a <= lo <= hi <= b <= s@.len(),
            forall|j: int| hi <= j < b ==> is_space(#[trigger] s@[j]),
        decreases hi - lo,
    {
        hi = hi - 1;
    }
    proof {
        let k = lo - a;
        assert(forall|j: int| 0 <= j < k ==> is_space(#[trigger] line[j]));
        lemma_trim_start(line, k);
        let mid = line.skip(k);
        let m = hi - lo;
        assert(forall|j: int| m <= j < mid.len() ==> is_space(#[trigger] mid[j]));
        lemma_trim_end(mid, m);
        assert(mid.take(m) =~= s@.subrange(lo as int, hi as int));
    }
    (lo, hi)
}

/// Scanning the first `n` characters of a line for whitespace: the
/// completed chunks and the partial chunk after them.
pub open spec fn splitws_fold(s: Seq<char>, n: int) -> (Seq<Seq<char>>, Seq<char>)
    decreases n,
{
    if n <= 0 {
        (Seq::<Seq<char>>::empty(), Seq::<char>::empty())
    } else {
        let p = splitws_fold(s, n - 1);
        if is_space(s[n - 1]) {
            (p.0.push(p.1), Seq::<char>::empty())
        } else {
            (p.0, p.1.push(s[n - 1]))
        }
    }
}

/// A line split at each whitespace character, empty chunks kept: the
/// split of an empty line is one empty chunk.
pub open spec fn split_ws(s: Seq<char>) -> Seq<Seq<char>> {
    let p = splitws_fold(s, s.len() as int);
    p.0.push(p.1)
}

/// Splits one line at whitespace, keeping empty chunks.
fn split_ws_exec<'a>(line: &'a str) -> (r: Vec<&'a str>)
    ensures
        r@.map_values(|c: &str| c@) == split_ws(line@),
        r@.len() >= 1,
{
    let n: usize = line.unicode_len();
    let mut chunks: Vec<&str> = Vec::new();
    let mut start: usize = 0;
    let mut i: usize = 0;
    while i < n
        invariant
            n == line@.len(),
            0 <= start <= i <= n,
            chunks@.map_values(|c: &str| c@) == splitws_fold(line@, i as int).0,
            line@.subrange(start as int, i as int) == splitws_fold(line@, i as int).1,
            forall|j: int| start <= j < i ==> !is_space(#[trigger] line@[j]),
        decreases n - i,
    {
        let c = line.get_char(i);
        if is_space_exec(c) {
            let piece = line.substring_char(start, i);
            chunks.push(piece);
            start = i + 1;
            proof {
                assert(chunks@.map_values(|c: &str| c@) =~= splitws_fold(line@, i as int + 1).0);
                assert(line@.subrange(start as int, i as int + 1) =~= splitws_fold(
                    line@,
                    i as int + 1,
                ).1);
            }
        } else {
            proof {
                assert(line@.subrange(start as int, i as int + 1) =~= splitws_fold(
                    line@,
                    i as int + 1,
                ).1);
            }
        }
        i = i + 1;
    }
    let last = line.substring_char(start, n);
    chunks.push(last);
    proof {
        assert(chunks@.map_values(|c: &str| c@) =~= split_ws(line@));
    }
    chunks
}

/// The chunks joined with single spaces.
pub open spec fn join_sp(chunks: Seq<Seq<char>>) -> Seq<char>
    decreases chunks.len(),
{
    if chunks.len() == 0 {
        Seq::<char>::empty()
    } else if chunks.len() == 1 {
        chunks[0]
    } else {
        join_sp(chunks.drop_last()) + seq![' '] + chunks.last()
    }
}

/// The description a chunk tail yields: nothing when there are no chunks,
/// otherwise the chunks joined with single spaces.
pub open spec fn join_opt(chunks: Seq<Seq<char>>) -> Option<Seq<char>> {
    if chunks.len() == 0 {
        Option::None
    } else {
        Option::Some(join_sp(chunks))
    }
}

/// Whether two texts are equal.
pub fn str_eq(a: &str, b: &str) -> (r: bool)
    ensures
        r == (a@ == b@),
{
    let n: usize = a.unicode_len();
    let m: usize = b.unicode_len();
    if n != m {
        return false;
    }
    let mut i: usize = 0;
    while i < n
        invariant
            n == a@.len(),
            n == b@.len(),
            0 <= i <= n,
            forall|j: int| 0 <= j < i ==> a@[j] == #[trigger] b@[j],
        decreases n - i,
    {
        if a.get_char(i) != b.get_char(i) {
            return false;
        }
        i = i + 1;
    }
    proof {
        assert(a@ =~= b@);
    }
    true
}

/// The documented name of the badge-building entry point a script must
/// provide.
pub open spec fn spec_main_name() -> Seq<char> {
    "build_badge"@
}

/// One documented parameter of a script function.
#[derive(Clone, Debug)]
pub struct LuaParam {
    pub name: String,
    pub ltype: Option<String>,
    pub description: Option<String>,
}

/// A documented script function: its name, description and parameters.
#[derive(Clone, Debug)]
pub struct LuaFunctionSpec {
    pub name: String,
    pub description: Option<String>,
    pub params: Vec<LuaParam>,
}

/// A parse failure, with its description.
#[derive(Debug)]
pub struct ParseError {
    pub msg: String,
}

impl ParseError {
    /// The description of the failure.
    pub fn message(&self) -> (r: &str)
        ensures
            r@ == self.msg@,
    {
        self.msg.as_str()
    }
}

/// The mathematical counterpart of `LuaParam`.
pub struct GParam {
    pub name: Seq<char>,
    pub ltype: Option<Seq<char>>,
    pub description: Option<Seq<char>>,
}

/// The mathematical counterpart of `LuaFunctionSpec`.
pub struct GFunSpec {
    pub name: Seq<char>,
    pub description: Option<Seq<char>>,
    pub params: Seq<GParam>,
}

impl View for LuaParam {
    type V = GParam;

    open spec fn view(&self) -> GParam {
        GParam {
            name: self.name@,
            ltype: match self.ltype {
                Option::None => Option::None,
                Option::Some(t) => Option::Some(t@),
            },
            description: match self.description {
                Option::None => Option::None,
                Option::Some(d) => Option::Some(d@),
            },
        }
    }
}

impl View for LuaFunctionSpec {
    type V = GFunSpec;

    open spec fn view(&self) -> GFunSpec {
        GFunSpec {
            name: self.name@,
            description: match self.description {
                Option::None => Option::None,
                Option::Some(d) => Option::Some(d@),
            },
            params: self.params@.map_values(|p: LuaParam| p@),
        }
    }
}

/// What a comment region has established so far: the latest documented
/// name and description, and the parameters in order.
pub struct GRegion {
    pub name: Option<Seq<char>>,
    pub description: Option<Seq<char>>,
    pub params: Seq<GParam>,
}

/// The failure message when `@function` has no name after it.
pub open spec fn err_function_msg(line: Seq<char>) -> Seq<char> {
    "Expected function name after '@function' in "@ + line
}

/// The failure message when `@param` has no name after it.
pub open spec fn err_param_msg(line: Seq<char>) -> Seq<char> {
    "Expected param name after '@param' in "@ + line
}

/// The failure message when `@tparam` lacks its type or name.
pub open spec fn err_tparam_msg(line: Seq<char>) -> Seq<char> {
    "Expected param type and name after '@tparam' in "@ + line
}

/// The failure message when no `@function build_badge` docstring exists.
pub open spec fn err_missing_msg() -> Seq<char> {
    "Expected docstring '@function build_badge'"@
}

/// One comment line applied to the region state: `@function` records name
/// and description, `@param` and `@tparam` append a parameter, a malformed
/// tag fails with its message, anything else changes nothing.
pub open spec fn region_line(st: GRegion, line: Seq<char>) -> Result<GRegion, Seq<char>> {
    let chunks = split_ws(line);
    if chunks[0] == "@function"@ {
        if chunks.len() < 2 {
            Result::Err(err_function_msg(line))
        } else {
            Result::Ok(
                GRegion {
                    name: Option::Some(chunks[1]),
                    description: join_opt(chunks.skip(2)),
                    params: st.params,
                },
            )
        }
    } else if chunks[0] == "@param"@ {
        if chunks.len() < 2 {
            Result::Err(err_param_msg(line))
        } else {
            Result::Ok(
                GRegion {
                    name: st.name,
                    description: st.description,
                    params: st.params.push(
                        GParam {
                            name: chunks[1],
                            ltype: Option::None,
                            description: join_opt(chunks.skip(2)),
                        },
                    ),
                },
            )
        }
    } else if chunks[0] == "@tparam"@ {
        if chunks.len() < 3 {
            Result::Err(err_tparam_msg(line))
        } else {
            Result::Ok(
                GRegion {
                    name: st.name,
                    description: st.description,
                    params: st.params.push(
                        GParam {
                            name: chunks[1],
                            ltype: Option::Some(chunks[2]),
                            description: join_opt(chunks.skip(2)),
                        },
                    ),
                },
            )
        }
    } else {
        Result::Ok(st)
    }
}

/// The first `n` lines of a region applied in order.
pub open spec fn region_fold(lines: Seq<Seq<char>>, n: int) -> Result<GRegion, Seq<char>>
    decreases n,
{
    if n <= 0 {
        Result::Ok(
            GRegion {
                name: Option::None,
                description: Option::None,
                params: Seq::<GParam>::empty(),
            },
        )
    } else {
        match region_fold(lines, n - 1) {
            Result::Err(e) => Result::Err(e),
            Result::Ok(st) => region_line(st, lines[n - 1]),
        }
    }
}

/// What parsing a whole comment region yields: a function spec when the
/// region documented a name, nothing when it did not, or the first
/// failure.
pub open spec fn region_result(lines: Seq<Seq<char>>) -> Result<Option<GFunSpec>, Seq<char>> {
    match region_fold(lines, lines.len() as int) {
        Result::Err(e) => Result::Err(e),
        Result::Ok(st) => match st.name {
            Option::Some(n) => Result::Ok(
                Option::Some(GFunSpec { name: n, description: st.description, params: st.params }),
            ),
            Option::None => Result::Ok(Option::None),
        },
    }
}

/// Joins a chunk tail with single spaces; no chunks yield no description.
pub fn str_from_chunks(chunks: &[&str]) -> (r: Option<String>)
    ensures
        match r {
            Option::None => join_opt(chunks@.map_values(|c: &str| c@)) is None,
            Option::Some(s) => join_opt(chunks@.map_values(|c: &str| c@)) == Option::Some(s@),
        },
{
    let ghost views = chunks@.map_values(|c: &str| c@);
    if chunks.len() == 0 {
        return None;
    }
    let mut out = String::new();
    let mut i: usize = 0;
    while i < chunks.len()
        invariant
            0 < chunks@.len(),
            views == chunks@.map_values(|c: &str| c@),
            0 <= i <= chunks@.len(),
            i > 0 ==> out@ == join_sp(views.take(i as int)),
            i == 0 ==> out@ == Seq::<char>::empty(),
        decreases chunks@.len() - i,
    {
        if i > 0 {
            out.append(" ");
        }
        out.append(chunks[i]);
        proof {
            reveal_strlit(" ");
            let t1 = views.take(i as int + 1);
            assert(t1.drop_last() =~= views.take(i as int));
            assert(t1.last() == views[i as int]);
            if i == 0 {
                assert(out@ =~= join_sp(t1));
            } else {
                assert(out@ =~= join_sp(t1));
            }
        }
        i = i + 1;
    }
    proof {
        assert(views.take(views.len() as int) =~= views);
    }
    Some(out)
}

/// A failed region fold stays failed however many more lines follow.
proof fn lemma_region_fold_err(lines: Seq<Seq<char>>, i: int, n: int)
    requires
        0 <= i <= n <= lines.len(),
        region_fold(lines, i) is Err,
    ensures
        region_fold(lines, n) == region_fold(lines, i),
    decreases n - i,
{
    if n > i {
        lemma_region_fold_err(lines, i, n - 1);
    }
}

/// Parses one comment region: walks its lines, recording the documented
/// function name and description and collecting parameters; yields
/// nothing when no `@function` tag occurred, and fails on a malformed
/// tag with that tag's message.
pub fn parse_comment_region(lines: &Vec<&str>) -> (r: Result<Option<LuaFunctionSpec>, ParseError>)
    ensures
        match r {
            Result::Ok(Option::None) => region_result(lines@.map_values(|l: &str| l@)) == Result::<
                Option<GFunSpec>,
                Seq<char>,
            >::Ok(Option::<GFunSpec>::None),
            Result::Ok(Option::Some(f)) => region_result(lines@.map_values(|l: &str| l@))
                == Result::<Option<GFunSpec>, Seq<char>>::Ok(Option::Some(f@)),
            Result::Err(e) => region_result(lines@.map_values(|l: &str| l@)) == Result::<
                Option<GFunSpec>,
                Seq<char>,
            >::Err(e.msg@),
        },
{
    let ghost lviews = lines@.map_values(|l: &str| l@);
    let mut name: Option<String> = None;
    let mut description: Option<String> = None;
    let mut params: Vec<LuaParam> = Vec::new();
    let mut i: usize = 0;
    proof {
        assert(params@.map_values(|p: LuaParam| p@) =~= Seq::<GParam>::empty());
    }
    while i < lines.len()
        invariant
            lviews == lines@.map_values(|l: &str| l@),
            0 <= i <= lines@.len(),
            region_fold(lviews, i as int) == Result::<GRegion, Seq<char>>::Ok(
                GRegion {
                    name: match name {
                        Option::None => Option::<Seq<char>>::None,
                        Option::Some(n) => Option::Some(n@),
                    },
                    description: match description {
                        Option::None => Option::<Seq<char>>::None,
                        Option::Some(d) => Option::Some(d@),
                    },
                    params: params@.map_values(|p: LuaParam| p@),
                },
            ),
        decreases lines@.len() - i,
    {
        let line: &str = lines[i];
        let chunks = split_ws_exec(line);
        let ghost cviews = chunks@.map_values(|c: &str| c@);
        proof {
            assert(cviews[0] == chunks@[0]@);
        }
        let ghost pre_params = params@;
        if str_eq(chunks[0], "@function") {
            if chunks.len() < 2 {
                let mut msg = String::from_str("Expected function name after '@function' in ");
                msg.append(line);
                proof {
                    assert(msg@ =~= err_function_msg(line@));
                    assert(lviews[i as int] == line@);
                    assert(region_fold(lviews, i as int + 1) == Result::<GRegion, Seq<char>>::Err(
                        msg@,
                    ));
                    lemma_region_fold_err(lviews, i as int + 1, lviews.len() as int);
                }
                return Err(ParseError { msg });
            }
            name = Some(chunks[1].to_owned());
            description = str_from_chunks(
                vstd::slice::slice_subrange(chunks.as_slice(), 2, chunks.len()),
            );
            proof {
                assert(cviews.skip(2) =~= chunks@.subrange(2, chunks@.len() as int).map_values(
                    |c: &str| c@,
                ));
            }
        } else if str_eq(chunks[0], "@param") {
            if chunks.len() < 2 {
                let mut msg = String::from_str("Expected param name after '@param' in ");
                msg.append(line);
                proof {
                    assert(msg@ =~= err_param_msg(line@));
                    assert(lviews[i as int] == line@);
                    assert(region_fold(lviews, i as int + 1) == Result::<GRegion, Seq<char>>::Err(
                        msg@,
                    ));
                    lemma_region_fold_err(lviews, i as int + 1, lviews.len() as int);
                }
                return Err(ParseError { msg });
            }
            let descr = str_from_chunks(
                vstd::slice::slice_subrange(chunks.as_slice(), 2, chunks.len()),
            );
            proof {
                assert(cviews.skip(2) =~= chunks@.subrange(2, chunks@.len() as int).map_values(
                    |c: &str| c@,
                ));
            }
            params.push(LuaParam { name: chunks[1].to_owned(), ltype: None, description: descr });
            proof {
                assert(params@.map_values(|p: LuaParam| p@) =~= pre_params.map_values(
                    |p: LuaParam| p@,
                ).push(params@.last()@));
            }
        } else if str_eq(chunks[0], "@tparam") {
            if chunks.len() < 3 {
                let mut msg = String::from_str("Expected param type and name after '@tparam' in ");
                msg.append(line);
                proof {
                    assert(msg@ =~= err_tparam_msg(line@));
                    assert(lviews[i as int] == line@);
                    assert(region_fold(lviews, i as int + 1) == Result::<GRegion, Seq<char>>::Err(
                        msg@,
                    ));
                    lemma_region_fold_err(lviews, i as int + 1, lviews.len() as int);
                }
                return Err(ParseError { msg });
            }
            let ltype = chunks[2].to_owned();
            let descr = str_from_chunks(
                vstd::slice::slice_subrange(chunks.as_slice(), 2, chunks.len()),
            );
            proof {
                assert(cviews.skip(2) =~= chunks@.subrange(2, chunks@.len() as int).map_values(
                    |c: &str| c@,
                ));
            }
            params.push(
                LuaParam {
                    name: chunks[1].to_owned(),
                    ltype: Some(ltype),
                    description: descr,
                },
            );
            proof {
                assert(params@.map_values(|p: LuaParam| p@) =~= pre_params.map_values(
                    |p: LuaParam| p@,
                ).push(params@.last()@));
            }
        }
        proof {
            assert(lviews[i as int] == lines@[i as int]@);
        }
        i = i + 1;
    }
    match name {
        Some(n) => Ok(Some(LuaFunctionSpec { name: n, description, params })),
        None => Ok(None),
    }
}

/// Where the scan of a script stands: the sought function was found, a
/// region failed to parse, or the scan goes on carrying the current
/// comment region.
pub enum DocsOutcome {
    Found(GFunSpec),
    Failed(Seq<char>),
    Going(Seq<Seq<char>>),
}

/// One raw line applied to the scan: blank lines are skipped, a comment
/// line's content (after `--`, trimmed) joins the region, and any other
/// line closes a non-empty region — parsing it, finishing if it documents
/// the sought function, and discarding it otherwise.
pub open spec fn docs_step(region: Seq<Seq<char>>, raw_line: Seq<char>) -> DocsOutcome {
    let line = trim_of(raw_line);
    if line.len() == 0 {
        DocsOutcome::Going(region)
    } else if line.len() >= 2 && line[0] == '-' && line[1] == '-' {
        DocsOutcome::Going(region.push(trim_of(line.skip(2))))
    } else if region.len() > 0 {
        match region_result(region) {
            Result::Err(e) => DocsOutcome::Failed(e),
            Result::Ok(Option::Some(f)) => if f.name == spec_main_name() {
                DocsOutcome::Found(f)
            } else {
                DocsOutcome::Going(Seq::<Seq<char>>::empty())
            },
            Result::Ok(Option::None) => DocsOutcome::Going(Seq::<Seq<char>>::empty()),
        }
    } else {
        DocsOutcome::Going(region)
    }
}

/// The scan after the first `n` lines.
pub open spec fn docs_fold(lines: Seq<Seq<char>>, n: int) -> DocsOutcome
    decreases n,
{
    if n <= 0 {
        DocsOutcome::Going(Seq::<Seq<char>>::empty())
    } else {
        match docs_fold(lines, n - 1) {
            DocsOutcome::Found(f) => DocsOutcome::Found(f),
            DocsOutcome::Failed(e) => DocsOutcome::Failed(e),
            DocsOutcome::Going(region) => docs_step(region, lines[n - 1]),
        }
    }
}

/// What parsing a whole script yields: the spec of the documented
/// `build_badge` function, a region's failure message, or — when the scan
/// ran out of lines — the missing-docstring message.
pub open spec fn spec_parse_lua_docs(s: Seq<char>) -> Result<GFunSpec, Seq<char>> {
    let lines = lines_of(s);
    match docs_fold(lines, lines.len() as int) {
        DocsOutcome::Found(f) => Result::Ok(f),
        DocsOutcome::Failed(e) => Result::Err(e),
        DocsOutcome::Going(r) => Result::Err(err_missing_msg()),
    }
}

/// A finished or failed scan stays so however many more lines follow.
proof fn lemma_docs_fold_sticky(lines: Seq<Seq<char>>, i: int, n: int)
    requires
        0 <= i <= n <= lines.len(),
        !(docs_fold(lines, i) is Going),
    ensures
        docs_fold(lines, n) == docs_fold(lines, i),
    decreases n - i,
{
    if n > i {
        lemma_docs_fold_sticky(lines, i, n - 1);
    }
}

/// Parses a Lua script's documentation comments and yields the function
/// documented as `@function build_badge`: comment regions are gathered
/// line by line and parsed when a non-comment line closes them; the scan
/// fails on the first malformed tag, or — when no region documents the
/// sought function — with the missing-docstring message.
pub fn parse_lua_docs(lua_script: &str) -> (r: Result<LuaFunctionSpec, ParseError>)
    ensures
        match r {
            Result::Ok(f) => spec_parse_lua_docs(lua_script@) == Result::<
                GFunSpec,
                Seq<char>,
            >::Ok(f@),
            Result::Err(e) => spec_parse_lua_docs(lua_script@) == Result::<
                GFunSpec,
                Seq<char>,
            >::Err(e.msg@),
        },
{
    let n: usize = lua_script.unicode_len();
    let ghost glines = lines_of(lua_script@);

    let mut ranges: Vec<(usize, usize)> = Vec::new();
    let mut cur_start: usize = 0;
    let mut i: usize = 0;
    while i < n
        invariant
            n == lua_script@.len(),
            0 <= cur_start <= i <= n,
            ranges@.len() == lines_fold(lua_script@, i as int).0.len(),
            forall|j: int|
                0 <= j < ranges@.len() ==> {
                    let rg = #[trigger] ranges@[j];
                    &&& rg.0 <= rg.1 <= n
                    &&& lua_script@.subrange(rg.0 as int, rg.1 as int) == lines_fold(lua_script@, i as int).0[j]
                },
            lines_fold(lua_script@, i as int).1 == lua_script@.subrange(cur_start as int, i as int),
        decreases n - i,
    {
        let c = lua_script.get_char(i);
        if c == '\n' {
            let ghost partial = lua_script@.subrange(cur_start as int, i as int);
            let endpos: usize = if i > cur_start && lua_script.get_char(i - 1) == '\r' {
                proof {
                    assert(partial.last() == '\r');
                    assert(partial.drop_last() =~= lua_script@.subrange(cur_start as int, i as int - 1));
                }
                i - 1
            } else {
                i
            };
            proof {
                assert(strip_cr(partial) == lua_script@.subrange(cur_start as int, endpos as int));
            }
            ranges.push((cur_start, endpos));
            cur_start = i + 1;
            proof {
                assert(lua_script@.subrange(cur_start as int, i as int + 1) =~= Seq::<char>::empty());
            }
        } else {
            proof {
                assert(lua_script@.subrange(cur_start as int, i as int + 1) =~= lua_script@.subrange(
                    cur_start as int,
                    i as int,
                ).push(lua_script@[i as int]));
            }
        }
        i = i + 1;
    }
    if cur_start < n {
        ranges.push((cur_start, n));
    }
    proof {
        assert(ranges@.len() == glines.len());
        assert(forall|j: int|
            0 <= j < ranges@.len() ==> {
                let rg = #[trigger] ranges@[j];
                &&& rg.0 <= rg.1 <= n
                &&& lua_script@.subrange(rg.0 as int, rg.1 as int) == glines[j]
            });
    }

    let mut cur_region: Vec<&str> = Vec::new();
    let mut k: usize = 0;
    proof {
        assert(cur_region@.map_values(|l: &str| l@) =~= Seq::<Seq<char>>::empty());
    }
    while k < ranges.len()
        invariant
            glines == lines_of(lua_script@),
            n == lua_script@.len(),
            0 <= k <= ranges@.len(),
            ranges@.len() == glines.len(),
            forall|j: int|
                0 <= j < ranges@.len() ==> {
                    let rg = #[trigger] ranges@[j];
                    &&& rg.0 <= rg.1 <= n
                    &&& lua_script@.subrange(rg.0 as int, rg.1 as int) == glines[j]
                },
            docs_fold(glines, k as int) == DocsOutcome::Going(
                cur_region@.map_values(|l: &str| l@),
            ),
        decreases ranges@.len() - k,
    {
        let ghost region_views = cur_region@.map_values(|l: &str| l@);
        let (a, b): (usize, usize) = ranges[k];
        let ghost raw_line = glines[k as int];
        let (ta, tb) = trim_range(lua_script, a, b);
        let ghost line = trim_of(raw_line);
        proof {
            assert(lua_script@.subrange(ta as int, tb as int) == line);
        }
        if tb == ta {
        } else if tb - ta >= 2 && lua_script.get_char(ta) == '-' && lua_script.get_char(ta + 1) == '-' {
            proof {
                assert(line[0] == '-' && line[1] == '-');
            }
            let (ca, cb) = trim_range(lua_script, ta + 2, tb);
            let piece = lua_script.substring_char(ca, cb);
            proof {
                assert(lua_script@.subrange(ta as int + 2, tb as int) =~= line.skip(2));
                assert(piece@ == trim_of(line.skip(2)));
            }
            cur_region.push(piece);
            proof {
                assert(cur_region@.map_values(|l: &str| l@) =~= region_views.push(
                    trim_of(line.skip(2)),
                ));
            }
        } else {
            proof {
                if line.len() >= 2 {
                    assert(line[0] == lua_script@[ta as int] && line[1] == lua_script@[ta as int + 1]);
                }
            }
            if cur_region.len() > 0 {
                match parse_comment_region(&cur_region) {
                    Result::Err(e) => {
                        proof {
                            assert(docs_fold(glines, k as int + 1) == DocsOutcome::Failed(e.msg@));
                            lemma_docs_fold_sticky(glines, k as int + 1, glines.len() as int);
                            assert(spec_parse_lua_docs(lua_script@) == Result::<
                                GFunSpec,
                                Seq<char>,
                            >::Err(e.msg@));
                        }
                        return Err(e);
                    },
                    Result::Ok(Option::Some(lfs)) => {
                        if str_eq(lfs.name.as_str(), "build_badge") {
                            proof {
                                assert(docs_fold(glines, k as int + 1) == DocsOutcome::Found(lfs@));
                                lemma_docs_fold_sticky(glines, k as int + 1, glines.len() as int);
                                assert(docs_fold(glines, glines.len() as int)
                                    == DocsOutcome::Found(lfs@));
                                assert(spec_parse_lua_docs(lua_script@) == Result::<
                                    GFunSpec,
                                    Seq<char>,
                                >::Ok(lfs@));
                            }
                            return Ok(lfs);
                        }
                        cur_region = Vec::new();
                        proof {
                            assert(cur_region@.map_values(|l: &str| l@) =~= Seq::<
                                Seq<char>,
                            >::empty());
                        }
                    },
                    Result::Ok(Option::None) => {
                        cur_region = Vec::new();
                        proof {
                            assert(cur_region@.map_values(|l: &str| l@) =~= Seq::<
                                Seq<char>,
                            >::empty());
                        }
                    },
                }
            }
        }
        k = k + 1;
    }
    let msg = String::from_str("Expected docstring '@function build_badge'");
    proof {
        assert(msg@ =~= err_missing_msg());
    }
    Err(ParseError { msg })
}

} // verus!
