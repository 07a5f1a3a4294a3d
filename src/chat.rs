use vstd::prelude::*;

verus! {

/// The tag that closes a model's reasoning section.
pub open spec fn think_end() -> Seq<char> {
    seq!['<', '/', 't', 'h', 'i', 'n', 'k', '>']
}

/// Whether the closing tag starts at position `i` of `s`.
pub open spec fn think_end_at(s: Seq<char>, i: int) -> bool {
    0 <= i && i + 8 <= s.len() && s.subrange(i, i + 8) == think_end()
}

/// The last position at or below `n` where the closing tag starts, or -1.
pub open spec fn last_think_end_from(s: Seq<char>, n: int) -> int
    decreases n + 1,
{
    if n < 0 {
        -1
    } else if think_end_at(s, n) {
        n
    } else {
        last_think_end_from(s, n - 1)
    }
}

/// The text after the last closing tag, or all of `s` when it holds none.
pub open spec fn after_last_think_end(s: Seq<char>) -> Seq<char> {
    let i = last_think_end_from(s, s.len() - 8);
    if i < 0 {
        s
    } else {
        s.skip(i + 8)
    }
}

/// Whether `c` has the Unicode White_Space property, which is what
/// `char::is_whitespace` tests.
pub open spec fn is_white_space(c: char) -> bool {
    ('\u{9}' <= c <= '\u{d}') || c == ' ' || c == '\u{85}' || c == '\u{a0}' || c == '\u{1680}'
        || ('\u{2000}' <= c <= '\u{200a}') || c == '\u{2028}' || c == '\u{2029}' || c
        == '\u{202f}' || c == '\u{205f}' || c == '\u{3000}'
}

/// `s` without its leading whitespace.
pub open spec fn trim_start_ws(s: Seq<char>) -> Seq<char>
    decreases s.len(),
{
    if s.len() > 0 && is_white_space(s[0]) {
        trim_start_ws(s.drop_first())
    } else {
        s
    }
}

/// `s` without its trailing whitespace.
pub open spec fn trim_end_ws(s: Seq<char>) -> Seq<char>
    decreases s.len(),
{
    if s.len() > 0 && is_white_space(s.last()) {
        trim_end_ws(s.drop_last())
    } else {
        s
    }
}

/// `s` without leading and trailing whitespace.
pub open spec fn trimmed(s: Seq<char>) -> Seq<char> {
    trim_end_ws(trim_start_ws(s))
}

/// Relies on `str::trim`: the text with leading and trailing characters of
/// the Unicode White_Space property removed.
#[verifier::external_body]
fn trim(s: &str) -> (r: &str)
    ensures
        r@ == trimmed(s@),
{
    s.trim()
}

/// Whether the closing tag occurs anywhere in `s`.
pub open spec fn has_think_end(s: Seq<char>) -> bool {
    exists|j: int| think_end_at(s, j)
}

proof fn lemma_last_think_end_is_last(s: Seq<char>, n: int, j: int)
    requires
        0 <= j <= n,
        think_end_at(s, j),
    ensures
        last_think_end_from(s, n) >= j,
    decreases n + 1,
{
    if n > j && !think_end_at(s, n) {
        lemma_last_think_end_is_last(s, n - 1, j);
    }
}

proof fn lemma_last_think_end_found(s: Seq<char>, n: int)
    ensures
        last_think_end_from(s, n) >= 0 ==> last_think_end_from(s, n) <= n && think_end_at(
            s,
            last_think_end_from(s, n),
        ),
    decreases n + 1,
{
    if n < 0 {
        assert(last_think_end_from(s, n) == -1);
    } else if !think_end_at(s, n) {
        lemma_last_think_end_found(s, n - 1);
    }
}

/// The text after the last closing tag holds no closing tag.
pub proof fn lemma_after_last_has_no_think_end(s: Seq<char>)
    ensures
        !has_think_end(after_last_think_end(s)),
{
    let n = s.len() - 8;
    let i = last_think_end_from(s, n);
    lemma_last_think_end_found(s, n);
    let r = after_last_think_end(s);
    assert forall|k: int| !think_end_at(r, k) by {
        if think_end_at(r, k) {
            let off: int = if i < 0 { 0 } else { i + 8 };
            assert(r =~= s.skip(off));
            assert(s.subrange(off + k, off + k + 8) =~= r.subrange(k, k + 8));
            assert(think_end_at(s, off + k));
            lemma_last_think_end_is_last(s, n, off + k);
        }
    }
}

proof fn lemma_trim_start_is_suffix(s: Seq<char>)
    ensures
        exists|a: int| 0 <= a <= s.len() && trim_start_ws(s) == s.skip(a),
    decreases s.len(),
{
    if s.len() > 0 && is_white_space(s[0]) {
        lemma_trim_start_is_suffix(s.drop_first());
        let a = choose|a: int|
            0 <= a <= s.drop_first().len() && trim_start_ws(s.drop_first()) == s.drop_first().skip(
                a,
            );
        assert(s.drop_first().skip(a) =~= s.skip(a + 1));
    } else {
        assert(s.skip(0) =~= s);
    }
}

proof fn lemma_trim_end_is_prefix(s: Seq<char>)
    ensures
        exists|b: int| 0 <= b <= s.len() && trim_end_ws(s) == s.take(b),
    decreases s.len(),
{
    if s.len() > 0 && is_white_space(s.last()) {
        lemma_trim_end_is_prefix(s.drop_last());
        let b = choose|b: int|
            0 <= b <= s.drop_last().len() && trim_end_ws(s.drop_last()) == s.drop_last().take(b);
        assert(s.drop_last().take(b) =~= s.take(b));
    } else {
        assert(s.take(s.len() as int) =~= s);
    }
}

/// Trimming cannot make a closing tag appear.
pub proof fn lemma_trimmed_keeps_no_think_end(s: Seq<char>)
    requires
        !has_think_end(s),
    ensures
        !has_think_end(trimmed(s)),
{
    lemma_trim_start_is_suffix(s);
    let a = choose|a: int| 0 <= a <= s.len() && trim_start_ws(s) == s.skip(a);
    let t = trim_start_ws(s);
    lemma_trim_end_is_prefix(t);
    let b = choose|b: int| 0 <= b <= t.len() && trim_end_ws(t) == t.take(b);
    let r = trimmed(s);
    assert forall|k: int| !think_end_at(r, k) by {
        if think_end_at(r, k) {
            assert(s.subrange(a + k, a + k + 8) =~= r.subrange(k, k + 8));
            assert(think_end_at(s, a + k));
        }
    }
}

fn chars_of(s: &str) -> (r: Vec<char>)
    ensures
        r@ == s@,
{
    broadcast use vstd::string::group_string_axioms;

    let mut v: Vec<char> = Vec::new();
    for c in it: s.chars()
        invariant
            v@ == it.seq().take(it.index() as int),
    {
        v.push(c);
    }
    v
}

fn find_after_last_think(input: &str) -> (r: &str)
    ensures
        r@ == after_last_think_end(input@),
{
    let cs = chars_of(input);
    let n = cs.len();
    if n < 8 {
        return input;
    }
    let mut i: usize = n - 8;
    loop
        invariant
            cs@ == input@,
            n == cs@.len(),
            n >= 8,
            i <= n - 8,
            last_think_end_from(input@, n - 8) == last_think_end_from(input@, i as int),
        decreases i,
    {
        if cs[i] == '<' && cs[i + 1] == '/' && cs[i + 2] == 't' && cs[i + 3] == 'h' && cs[i + 4]
            == 'i' && cs[i + 5] == 'n' && cs[i + 6] == 'k' && cs[i + 7] == '>' {
            assert(input@.subrange(i as int, i + 8) =~= think_end());
            return input.substring_char(i + 8, n);
        }
        proof {
            if think_end_at(input@, i as int) {
                assert(input@.subrange(i as int, i + 8)[0] == think_end()[0]);
                assert(input@.subrange(i as int, i + 8)[1] == think_end()[1]);
                assert(input@.subrange(i as int, i + 8)[2] == think_end()[2]);
                assert(input@.subrange(i as int, i + 8)[3] == think_end()[3]);
                assert(input@.subrange(i as int, i + 8)[4] == think_end()[4]);
                assert(input@.subrange(i as int, i + 8)[5] == think_end()[5]);
                assert(input@.subrange(i as int, i + 8)[6] == think_end()[6]);
                assert(input@.subrange(i as int, i + 8)[7] == think_end()[7]);
            }
        }
        if i == 0 {
            assert(last_think_end_from(input@, -1) == -1);
            return input;
        }
        i = i - 1;
    }
}

/// The text that follows the last `</think>` tag, or the whole input when it
/// holds no such tag.
pub fn after_last_think(input: &str) -> (r: &str)
    ensures
        r@ == after_last_think_end(input@),
        !has_think_end(r@),
{
    proof {
        lemma_after_last_has_no_think_end(input@);
    }
    find_after_last_think(input)
}

/// The answer part of a model's reply: the text after the last `</think>`
/// tag (all of it when there is none), with surrounding whitespace trimmed.
pub fn strip_think(input: &str) -> (r: &str)
    ensures
        r@ == trimmed(after_last_think_end(input@)),
        !has_think_end(r@),
{
    proof {
        lemma_after_last_has_no_think_end(input@);
        lemma_trimmed_keeps_no_think_end(after_last_think_end(input@));
    }
    trim(after_last_think(input))
}

/// One message of a chat-completion request.
pub struct ChatMessage {
    pub role: String,
    pub content: String,
}

impl View for ChatMessage {
    type V = (Seq<char>, Seq<char>);

    open spec fn view(&self) -> (Seq<char>, Seq<char>) {
        (self.role@, self.content@)
    }
}

/// The message of `role` for a prompt, if the prompt is given and not empty.
pub open spec fn prompt_message(role: Seq<char>, prompt: Option<Seq<char>>) -> Seq<
    (Seq<char>, Seq<char>),
> {
    match prompt {
        Some(p) => if p.len() > 0 {
            seq![(role, p)]
        } else {
            seq![]
        },
        None => seq![],
    }
}

pub open spec fn opt_str_view(o: Option<&str>) -> Option<Seq<char>> {
    match o {
        Some(s) => Some(s@),
        None => None,
    }
}

fn push_prompt(messages: &mut Vec<ChatMessage>, role: &str, prompt: Option<&str>)
    ensures
        final(messages)@.map_values(|m: ChatMessage| m@) == old(messages)@.map_values(
            |m: ChatMessage| m@,
        ) + prompt_message(role@, opt_str_view(prompt)),
{
    let ghost before = messages@;
    match prompt {
        Some(p) => {
            if p.unicode_len() > 0 {
                messages.push(ChatMessage { role: role.to_string(), content: p.to_string() });
                assert(messages@.map_values(|m: ChatMessage| m@) =~= before.map_values(
                    |m: ChatMessage| m@,
                ) + prompt_message(role@, opt_str_view(prompt)));
                return;
            }
        },
        None => {},
    }
    assert(messages@.map_values(|m: ChatMessage| m@) =~= before.map_values(|m: ChatMessage| m@)
        + prompt_message(role@, opt_str_view(prompt)));
}

/// The messages of a one-shot prompt: the system prompt, then the user
/// prompt, each left out when absent or empty.
pub fn prompt_messages(system_prompt: Option<&str>, user_prompt: Option<&str>) -> (r: Vec<
    ChatMessage,
>)
    ensures
        r@.map_values(|m: ChatMessage| m@) == prompt_message("system"@, opt_str_view(system_prompt))
            + prompt_message("user"@, opt_str_view(user_prompt)),
{
    let mut messages: Vec<ChatMessage> = Vec::new();
    assert(messages@.map_values(|m: ChatMessage| m@) =~= Seq::<(Seq<char>, Seq<char>)>::empty());
    push_prompt(&mut messages, "system", system_prompt);
    push_prompt(&mut messages, "user", user_prompt);
    assert(Seq::<(Seq<char>, Seq<char>)>::empty() + prompt_message("system"@, opt_str_view(
        system_prompt)) =~= prompt_message("system"@, opt_str_view(system_prompt)));
    messages
}

} // verus!
