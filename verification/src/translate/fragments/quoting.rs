//! Shell quoting: escaping of literal text, and the tracking of quotes across
//! the literal chunks of a command line.
//!
//! A command line is modelled as a sequence of chunks: `Some(text)` for a
//! literal chunk, `None` where an interpolation stands.

use vstd::prelude::*;

verus! {

/// Whether the scan stands inside single or double quotes.
#[derive(Clone, Copy, Debug, PartialEq, Eq, Structural)]
pub struct QuoteState {
    pub in_single: bool,
    pub in_double: bool,
}

/// The state of a scan inside one chunk: the quotes, and whether an odd
/// number of backslashes stands directly before the next character.
pub struct ScanState {
    pub in_single: bool,
    pub in_double: bool,
    pub escaped: bool,
}

/// Outside of any quotes.
pub open spec fn neutral() -> QuoteState {
    QuoteState { in_single: false, in_double: false }
}

/// The state in which the scan of a chunk starts.
pub open spec fn scan_start(q: QuoteState) -> ScanState {
    ScanState { in_single: q.in_single, in_double: q.in_double, escaped: false }
}

/// The quotes of a scan state.
pub open spec fn quotes_of(st: ScanState) -> QuoteState {
    QuoteState { in_single: st.in_single, in_double: st.in_double }
}

/// One step of the scan. A quote character toggles its own flag if the other
/// flag is clear and an even number of backslashes stands before it.
pub open spec fn scan_step(st: ScanState, c: char) -> ScanState {
    if c == '\\' {
        ScanState { escaped: !st.escaped, ..st }
    } else if c == '"' {
        ScanState {
            in_single: st.in_single,
            in_double: if !st.in_single && !st.escaped {
                !st.in_double
            } else {
                st.in_double
            },
            escaped: false,
        }
    } else if c == '\'' {
        ScanState {
            in_single: if !st.in_double && !st.escaped {
                !st.in_single
            } else {
                st.in_single
            },
            in_double: st.in_double,
            escaped: false,
        }
    } else {
        ScanState { escaped: false, ..st }
    }
}

/// The state after the first `n` characters of `s`, starting in `st`.
pub open spec fn scan_run(s: Seq<char>, st: ScanState, n: int) -> ScanState
    decreases n,
{
    if n <= 0 || n > s.len() {
        st
    } else {
        scan_step(scan_run(s, st, n - 1), s[n - 1])
    }
}

/// The quotes after the whole chunk `s`, entered with the quotes `q`.
pub open spec fn scanned(s: Seq<char>, q: QuoteState) -> QuoteState {
    quotes_of(scan_run(s, scan_start(q), s.len() as int))
}

/// Whether the chunk `s`, entered with the quotes `q`, ends with an odd number
/// of backslashes.
pub open spec fn ends_escaped(s: Seq<char>, q: QuoteState) -> bool {
    scan_run(s, scan_start(q), s.len() as int).escaped
}

/// Scanning `a + b` is scanning `a`, then `b` from where `a` ended.
pub proof fn lemma_scan_run_concat(a: Seq<char>, b: Seq<char>, st: ScanState, n: int)
    requires
        0 <= n <= b.len(),
    ensures
        scan_run(a + b, st, a.len() + n) == scan_run(b, scan_run(a, st, a.len() as int), n),
    decreases n,
{
    if n == 0 {
        lemma_scan_run_prefix(a, a + b, st, a.len() as int);
    } else {
        lemma_scan_run_concat(a, b, st, n - 1);
        assert((a + b)[a.len() + n - 1] == b[n - 1]);
    }
}

/// The scan of the first `n` characters depends on these characters alone.
pub proof fn lemma_scan_run_prefix(a: Seq<char>, b: Seq<char>, st: ScanState, n: int)
    requires
        0 <= n <= a.len(),
        n <= b.len(),
        forall|i: int| 0 <= i < n ==> a[i] == b[i],
    ensures
        scan_run(a, st, n) == scan_run(b, st, n),
    decreases n,
{
    if n > 0 {
        lemma_scan_run_prefix(a, b, st, n - 1);
    }
}

/// What the balancing pass knows before it reaches a chunk: the quotes it
/// believes to be open, and whether the next literal chunk must reopen a
/// single quote.
pub struct BalanceState {
    pub quotes: QuoteState,
    pub reopen: bool,
}

/// The text that closes a single quote and opens a double quote.
pub open spec fn close_text() -> Seq<char> {
    seq!['\'', '"']
}

/// The text that closes a double quote and opens a single quote.
pub open spec fn reopen_text() -> Seq<char> {
    seq!['"', '\'']
}

/// The text that closes a double quote.
pub open spec fn final_text() -> Seq<char> {
    seq!['"']
}

/// A literal chunk with the reopening text in front, where one is due.
pub open spec fn reopened(text: Seq<char>, reopen: bool) -> Seq<char> {
    if reopen {
        reopen_text() + text
    } else {
        text
    }
}

/// The state of the balancing pass after the chunk `chunk` at position `at`
/// of `total`, entered in state `st`.
pub open spec fn balance_step(st: BalanceState, chunk: Option<Seq<char>>, at: int, total: int)
    -> BalanceState {
    match chunk {
        None => st,
        Some(text) => {
            let q = scanned(reopened(text, st.reopen), st.quotes);
            if q.in_single && at + 1 < total {
                BalanceState {
                    quotes: QuoteState { in_single: false, in_double: true },
                    reopen: true,
                }
            } else {
                BalanceState { quotes: q, reopen: false }
            }
        },
    }
}

/// The state of the balancing pass before the chunk at position `n`.
pub open spec fn balance_before(chunks: Seq<Option<Seq<char>>>, n: int) -> BalanceState
    decreases n,
{
    if n <= 0 || n > chunks.len() {
        BalanceState { quotes: neutral(), reopen: false }
    } else {
        balance_step(balance_before(chunks, n - 1), chunks[n - 1], n - 1, chunks.len() as int)
    }
}

/// Whether the literal chunk at position `at` is closed locally: it leaves a
/// single quote open and is not the last part.
pub open spec fn closes_at(chunks: Seq<Option<Seq<char>>>, at: int) -> bool {
    &&& 0 <= at < chunks.len()
    &&& chunks[at] matches Some(text)
    &&& scanned(
        reopened(text, balance_before(chunks, at).reopen),
        balance_before(chunks, at).quotes,
    ).in_single
    &&& at + 1 < chunks.len()
}

/// The literal chunk at position `at` after balancing: the reopening text if
/// the chunk before it was closed locally, the chunk itself, and the closing
/// text if it is closed locally.
pub open spec fn balanced_text(chunks: Seq<Option<Seq<char>>>, at: int) -> Seq<char> {
    let text = reopened(chunks[at].unwrap(), balance_before(chunks, at).reopen);
    if closes_at(chunks, at) {
        text + close_text()
    } else {
        text
    }
}

/// Whether balancing adds a last chunk that closes the double quote.
pub open spec fn closes_at_end(chunks: Seq<Option<Seq<char>>>) -> bool {
    balance_before(chunks, chunks.len() as int).reopen
}

/// The chunks after balancing. Interpolations stay where they are.
pub open spec fn balanced(chunks: Seq<Option<Seq<char>>>) -> Seq<Option<Seq<char>>> {
    let kept = Seq::new(
        chunks.len(),
        |i: int|
            if chunks[i] is Some {
                Some(balanced_text(chunks, i))
            } else {
                None
            },
    );
    if closes_at_end(chunks) {
        kept.push(Some(final_text()))
    } else {
        kept
    }
}

/// The quotes after the first `n` chunks, each literal chunk scanned by
/// itself from the quotes that the chunks before it left, starting in `q`.
pub open spec fn walk(chunks: Seq<Option<Seq<char>>>, q: QuoteState, n: int) -> QuoteState
    decreases n,
{
    if n <= 0 || n > chunks.len() {
        q
    } else {
        match chunks[n - 1] {
            None => walk(chunks, q, n - 1),
            Some(text) => scanned(text, walk(chunks, q, n - 1)),
        }
    }
}

/// Whether every local close takes effect: no chunk that is closed locally
/// ends with an odd number of backslashes, which would escape the closing
/// quote.
pub open spec fn closes_take_effect(chunks: Seq<Option<Seq<char>>>) -> bool {
    forall|i: int|
        #![trigger closes_at(chunks, i)]
        closes_at(chunks, i) ==> !ends_escaped(
            reopened(chunks[i].unwrap(), balance_before(chunks, i).reopen),
            balance_before(chunks, i).quotes,
        )
}

/// Whether the source chunks leave no quote open that balancing does not
/// close: at the end either nothing is open, or a double quote that the last
/// added chunk closes.
pub open spec fn leaves_nothing_open(chunks: Seq<Option<Seq<char>>>) -> bool {
    closes_at_end(chunks) || balance_before(chunks, chunks.len() as int).quotes == neutral()
}

/// The balancing pass never believes to be inside both kinds of quotes.
pub proof fn lemma_balance_never_both(chunks: Seq<Option<Seq<char>>>, n: int)
    requires
        0 <= n <= chunks.len(),
    ensures
        !(balance_before(chunks, n).quotes.in_single && balance_before(chunks, n).quotes.in_double),
        balance_before(chunks, n).reopen ==> balance_before(chunks, n).quotes == (QuoteState {
            in_single: false,
            in_double: true,
        }),
        n < chunks.len() ==> !balance_before(chunks, n).quotes.in_single,
    decreases n,
{
    if n > 0 {
        lemma_balance_never_both(chunks, n - 1);
        let st = balance_before(chunks, n - 1);
        match chunks[n - 1] {
            None => {},
            Some(text) => {
                let whole = reopened(text, st.reopen);
                lemma_scan_never_both(whole, scan_start(st.quotes), whole.len() as int);
            },
        }
    }
}

/// A scan that starts outside of at least one kind of quotes never stands
/// inside both.
pub proof fn lemma_scan_never_both(s: Seq<char>, st: ScanState, n: int)
    requires
        !(st.in_single && st.in_double),
        0 <= n <= s.len(),
    ensures
        !(scan_run(s, st, n).in_single && scan_run(s, st, n).in_double),
    decreases n,
{
    if n > 0 {
        lemma_scan_never_both(s, st, n - 1);
    }
}

/// The quotes after a balanced chunk: what the pass believes, if the close
/// takes effect.
proof fn lemma_balanced_chunk(chunks: Seq<Option<Seq<char>>>, at: int)
    requires
        0 <= at < chunks.len(),
        chunks[at] is Some,
        closes_take_effect(chunks),
    ensures
        scanned(balanced_text(chunks, at), balance_before(chunks, at).quotes) == balance_before(
            chunks,
            at + 1,
        ).quotes,
{
    let st = balance_before(chunks, at);
    let whole = reopened(chunks[at].unwrap(), st.reopen);
    lemma_balance_never_both(chunks, at);
    lemma_scan_never_both(whole, scan_start(st.quotes), whole.len() as int);
    if closes_at(chunks, at) {
        let start = scan_start(st.quotes);
        let mid = scan_run(whole, start, whole.len() as int);
        assert(!mid.escaped);
        assert(mid.in_single && !mid.in_double);
        lemma_scan_run_concat(whole, close_text(), start, 2);
        assert(scan_run(close_text(), mid, 2) == scan_step(
            scan_step(scan_run(close_text(), mid, 0), '\''),
            '"',
        )) by {
            assert(scan_run(close_text(), mid, 1) == scan_step(
                scan_run(close_text(), mid, 0),
                close_text()[0],
            ));
            assert(scan_run(close_text(), mid, 2) == scan_step(
                scan_run(close_text(), mid, 1),
                close_text()[1],
            ));
        }
        assert((whole + close_text()).len() == whole.len() + 2);
    }
}

/// Scanning the chunks after balancing follows what the pass believes: after
/// the first `n` balanced chunks the quotes are those that the pass tracked.
pub proof fn lemma_walk_follows_balance(chunks: Seq<Option<Seq<char>>>, n: int)
    requires
        0 <= n <= chunks.len(),
        closes_take_effect(chunks),
    ensures
        walk(balanced(chunks), neutral(), n) == balance_before(chunks, n).quotes,
    decreases n,
{
    if n > 0 {
        lemma_walk_follows_balance(chunks, n - 1);
        let b = balanced(chunks);
        assert(b.len() >= chunks.len());
        match chunks[n - 1] {
            None => {
                assert(b[n - 1] is None);
            },
            Some(text) => {
                assert(b[n - 1] == Some(balanced_text(chunks, n - 1)));
                lemma_balanced_chunk(chunks, n - 1);
            },
        }
    }
}

/// No interpolation of a balanced command line stands inside single quotes.
pub proof fn lemma_interpolations_outside_single_quotes(chunks: Seq<Option<Seq<char>>>, at: int)
    requires
        0 <= at < chunks.len(),
        chunks[at] is None,
        closes_take_effect(chunks),
    ensures
        balanced(chunks)[at] is None,
        !walk(balanced(chunks), neutral(), at).in_single,
{
    lemma_walk_follows_balance(chunks, at);
    lemma_balance_never_both(chunks, at);
}

/// The literal text of the first `n` chunks, one chunk behind the other.
/// Interpolations are left out.
pub open spec fn literal_text(chunks: Seq<Option<Seq<char>>>, n: int) -> Seq<char>
    decreases n,
{
    if n <= 0 || n > chunks.len() {
        Seq::empty()
    } else {
        match chunks[n - 1] {
            None => literal_text(chunks, n - 1),
            Some(text) => literal_text(chunks, n - 1) + text,
        }
    }
}

/// The state of the scan of the balanced line before the chunk at position
/// `n`, tracked beside the balancing pass: where the pass follows what it
/// believes of each chunk by itself, this scan reads every character that
/// the pass puts out, and carries the backslashes at the end of one chunk
/// over to the next.
pub open spec fn real_before(chunks: Seq<Option<Seq<char>>>, n: int) -> ScanState
    decreases n,
{
    if n <= 0 || n > chunks.len() {
        scan_start(neutral())
    } else {
        match chunks[n - 1] {
            None => real_before(chunks, n - 1),
            Some(_) => {
                let text = balanced_text(chunks, n - 1);
                scan_run(text, real_before(chunks, n - 1), text.len() as int)
            },
        }
    }
}

/// The state of the scan at the end of the balanced line, tracked beside
/// the balancing pass.
pub open spec fn real_end(chunks: Seq<Option<Seq<char>>>) -> ScanState {
    let st = real_before(chunks, chunks.len() as int);
    if closes_at_end(chunks) {
        scan_step(st, '"')
    } else {
        st
    }
}

/// Whether the scan that is tracked beside the balancing pass ends outside
/// of all quotes.
pub open spec fn comes_back(chunks: Seq<Option<Seq<char>>>) -> bool {
    quotes_of(real_end(chunks)) == neutral()
}

/// Whether no literal chunk ends with an odd number of backslashes, the
/// reopening text in front of it counted in.
pub open spec fn no_chunk_ends_escaped(chunks: Seq<Option<Seq<char>>>) -> bool {
    forall|i: int|
        #![trigger chunks[i]]
        0 <= i < chunks.len() && chunks[i] is Some ==> !ends_escaped(
            reopened(chunks[i].unwrap(), balance_before(chunks, i).reopen),
            balance_before(chunks, i).quotes,
        )
}

/// The scan of the literal text of the first `n` balanced chunks ends in
/// the state that is tracked beside the pass.
pub proof fn lemma_scan_follows_track(chunks: Seq<Option<Seq<char>>>, n: int)
    requires
        0 <= n <= chunks.len(),
    ensures
        scan_run(
            literal_text(balanced(chunks), n),
            scan_start(neutral()),
            literal_text(balanced(chunks), n).len() as int,
        ) == real_before(chunks, n),
    decreases n,
{
    let b = balanced(chunks);
    assert(b.len() >= chunks.len());
    if n > 0 {
        lemma_scan_follows_track(chunks, n - 1);
        match chunks[n - 1] {
            None => {
                assert(b[n - 1] is None);
            },
            Some(_) => {
                let text = balanced_text(chunks, n - 1);
                assert(b[n - 1] == Some(text));
                lemma_scan_run_concat(
                    literal_text(b, n - 1),
                    text,
                    scan_start(neutral()),
                    text.len() as int,
                );
            },
        }
    }
}

/// The scan of the whole literal text of a balanced line ends in the state
/// that is tracked beside the pass. This holds of every line.
pub proof fn lemma_scan_of_balanced_line(chunks: Seq<Option<Seq<char>>>)
    ensures
        scan_run(
            literal_text(balanced(chunks), balanced(chunks).len() as int),
            scan_start(neutral()),
            literal_text(balanced(chunks), balanced(chunks).len() as int).len() as int,
        ) == real_end(chunks),
{
    let n = chunks.len() as int;
    let b = balanced(chunks);
    lemma_scan_follows_track(chunks, n);
    if closes_at_end(chunks) {
        assert(b.len() == n + 1);
        assert(b[n] == Some(final_text()));
        let before = literal_text(b, n);
        lemma_scan_run_concat(before, final_text(), scan_start(neutral()), 1);
        let st = real_before(chunks, n);
        assert(scan_run(final_text(), st, 1) == scan_step(scan_run(final_text(), st, 0), '"'));
    } else {
        assert(b.len() == n);
    }
}

/// Quote balance: the literal text of a balanced command line, scanned as
/// one text, ends in the quoting state in which it began. This holds of
/// every line on which the scan that is tracked beside the balancing pass
/// comes back to the start, and of no other line: see
/// [`lemma_scan_of_balanced_line`].
pub proof fn lemma_balanced_is_quote_balanced(chunks: Seq<Option<Seq<char>>>)
    requires
        comes_back(chunks),
    ensures
        scanned(literal_text(balanced(chunks), balanced(chunks).len() as int), neutral())
            == neutral(),
{
    lemma_scan_of_balanced_line(chunks);
}

/// The state that is tracked beside the pass is what the pass believes, as
/// long as no literal chunk ends with an odd number of backslashes.
pub proof fn lemma_track_follows_balance(chunks: Seq<Option<Seq<char>>>, n: int)
    requires
        0 <= n <= chunks.len(),
        no_chunk_ends_escaped(chunks),
    ensures
        real_before(chunks, n) == scan_start(balance_before(chunks, n).quotes),
    decreases n,
{
    if n > 0 {
        lemma_track_follows_balance(chunks, n - 1);
        match chunks[n - 1] {
            None => {},
            Some(source) => {
                let at = n - 1;
                let st = balance_before(chunks, at);
                let whole = reopened(source, st.reopen);
                let start = scan_start(st.quotes);
                assert(chunks[at] is Some);
                assert(!ends_escaped(whole, st.quotes));
                assert(closes_take_effect(chunks)) by {
                    assert forall|i: int| #![trigger closes_at(chunks, i)] closes_at(chunks, i) implies !ends_escaped(
                        reopened(chunks[i].unwrap(), balance_before(chunks, i).reopen),
                        balance_before(chunks, i).quotes,
                    ) by {
                        assert(chunks[i] is Some);
                    }
                }
                lemma_balanced_chunk(chunks, at);
                let text = balanced_text(chunks, at);
                if closes_at(chunks, at) {
                    let mid = scan_run(whole, start, whole.len() as int);
                    lemma_scan_run_concat(whole, close_text(), start, 2);
                    assert(scan_run(close_text(), mid, 1) == scan_step(
                        scan_run(close_text(), mid, 0),
                        close_text()[0],
                    ));
                    assert(scan_run(close_text(), mid, 2) == scan_step(
                        scan_run(close_text(), mid, 1),
                        close_text()[1],
                    ));
                    assert(text.len() == whole.len() + 2);
                    assert(!scan_run(text, start, text.len() as int).escaped);
                } else {
                    assert(text == whole);
                }
            },
        }
    }
}

/// A command line comes back to the quoting state in which it began if no
/// literal chunk ends with an odd number of backslashes and the source
/// leaves nothing open at its end. So quote balance holds of every such
/// line.
pub proof fn lemma_unescaped_lines_come_back(chunks: Seq<Option<Seq<char>>>)
    requires
        no_chunk_ends_escaped(chunks),
        leaves_nothing_open(chunks),
    ensures
        comes_back(chunks),
{
    let n = chunks.len() as int;
    lemma_track_follows_balance(chunks, n);
    lemma_balance_never_both(chunks, n);
}

/// How a piece of text is laid out in the shell.
#[derive(Debug, Clone, Copy, PartialEq, Eq, Structural)]
pub enum InterpolableRenderType {
    /// A double-quoted string of the shell.
    StringLiteral,
    /// A bare command line of the shell.
    GlobalContext,
}

/// The text that stands for the character `c` in the given layout.
pub open spec fn escape_char(c: char, render_type: InterpolableRenderType) -> Seq<char> {
    match render_type {
        InterpolableRenderType::StringLiteral => {
            if c == '"' {
                seq!['\\', '"']
            } else if c == '$' {
                seq!['\\', '$']
            } else if c == '`' {
                seq!['\\', '`']
            } else if c == '\\' {
                seq!['\\', '\\']
            } else if c == '!' {
                seq!['"', '\'', '!', '\'', '"']
            } else {
                seq![c]
            }
        },
        InterpolableRenderType::GlobalContext => seq![c],
    }
}

/// The first `n` characters of `s`, each escaped for the given layout.
pub open spec fn escaped_prefix(s: Seq<char>, render_type: InterpolableRenderType, n: int) -> Seq<
    char,
>
    decreases n,
{
    if n <= 0 || n > s.len() {
        Seq::empty()
    } else {
        escaped_prefix(s, render_type, n - 1) + escape_char(s[n - 1], render_type)
    }
}

/// The text `s`, escaped for the given layout.
pub open spec fn escaped(s: Seq<char>, render_type: InterpolableRenderType) -> Seq<char> {
    escaped_prefix(s, render_type, s.len() as int)
}

/// Escaping keeps the order of the pieces: `a + b` escaped is `a` escaped
/// followed by `b` escaped.
pub proof fn lemma_escaped_concat(a: Seq<char>, b: Seq<char>, render_type: InterpolableRenderType)
    ensures
        escaped(a + b, render_type) == escaped(a, render_type) + escaped(b, render_type),
    decreases b.len(),
{
    if b.len() == 0 {
        assert(a + b == a);
        assert(escaped(b, render_type) == Seq::<char>::empty());
    } else {
        let front = b.drop_last();
        lemma_escaped_concat(a, front, render_type);
        assert((a + b).drop_last() == a + front);
        lemma_escaped_prefix_of(a + b, a + front, render_type, (a + front).len() as int);
        lemma_escaped_prefix_of(b, front, render_type, front.len() as int);
        assert((a + b)[(a + b).len() - 1] == b[b.len() - 1]);
    }
}

/// The escaping of the first `n` characters depends on these characters alone.
pub proof fn lemma_escaped_prefix_of(
    s: Seq<char>,
    t: Seq<char>,
    render_type: InterpolableRenderType,
    n: int,
)
    requires
        0 <= n <= s.len(),
        n <= t.len(),
        forall|i: int| 0 <= i < n ==> s[i] == t[i],
    ensures
        escaped_prefix(s, render_type, n) == escaped_prefix(t, render_type, n),
    decreases n,
{
    if n > 0 {
        lemma_escaped_prefix_of(s, t, render_type, n - 1);
    }
}

} // verus!
