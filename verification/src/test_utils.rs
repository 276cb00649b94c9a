//! Databases that a test has to itself.
use crate::text::{before_last, head_before_last};
use vstd::prelude::*;

verus! {

/// Where databases for tests are made.
#[derive(Debug)]
pub struct TestDatabaseConfig {
    /// A database on the server to use.
    pub base_url: String,
    /// Whether each test gets a database of its own.
    pub unique_per_test: bool,
    /// Whether the database is to be filled.
    pub run_migrations: bool,
}

impl TestDatabaseConfig {
    /// A database for each test, on the server at the given URL or else on this
    /// machine.
    pub fn at(url: Option<String>) -> (r: Self)
        ensures
            r.base_url@ == (match url {
                Some(url) => url@,
                None => "postgresql://localhost/postgres"@,
            }),
            r.unique_per_test,
            !r.run_migrations,
    {
        let base_url = match url {
            Some(url) => url,
            None => "postgresql://localhost/postgres".to_owned(),
        };
        TestDatabaseConfig { base_url, unique_per_test: true, run_migrations: false }
    }
}

/// The hexadecimal digits in order.
pub open spec fn hex_digits() -> Seq<char> {
    "0123456789abcdef"@
}

/// A number in hexadecimal.
pub open spec fn hexadecimal(n: nat) -> Seq<char>
    decreases n,
{
    if n < 16 {
        seq![hex_digits()[n as int]]
    } else {
        hexadecimal(n / 16).push(hex_digits()[(n % 16) as int])
    }
}

/// A number in hexadecimal.
pub fn hex_of(n: u128) -> (r: String)
    ensures
        r@ == hexadecimal(n as nat),
    decreases n,
{
    proof {
        reveal_strlit("0123456789abcdef");
    }
    let d: usize = (n % 16) as usize;
    let last = "0123456789abcdef".substring_char(d, d + 1);
    assert(last@ =~= seq![hex_digits()[d as int]]);
    if n < 16 {
        last.to_owned()
    } else {
        let r = hex_of(n / 16).concat(last);
        assert(r@ =~= hexadecimal(n as nat));
        r
    }
}

/// The text for a test that starts at a time, with so many before it.
pub open spec fn unique_text(nanos: nat, counter: nat) -> Seq<char> {
    hexadecimal(nanos) + "_"@ + hexadecimal(counter)
}

/// Numbers that are handed out one after the other.
#[derive(Debug)]
pub struct TestCounter {
    /// The number that is handed out next.
    pub next: u64,
}

/// A counter after a number was drawn from it. The last number is followed by the
/// first one.
pub open spec fn after_draw(counter: TestCounter) -> TestCounter {
    TestCounter {
        next: if counter.next == u64::MAX {
            0
        } else {
            (counter.next + 1) as u64
        },
    }
}

/// A counter after so many numbers were drawn from it.
pub open spec fn after_draws(counter: TestCounter, n: nat) -> TestCounter
    decreases n,
{
    if n == 0 {
        counter
    } else {
        after_draw(after_draws(counter, (n - 1) as nat))
    }
}

impl TestCounter {
    /// A counter from which nothing was drawn.
    pub fn new() -> (r: Self)
        ensures
            r.next == 0,
    {
        TestCounter { next: 0 }
    }

    /// Draws a number.
    pub fn draw(&mut self) -> (r: u64)
        ensures
            r == old(self).next,
            *final(self) == after_draw(*old(self)),
    {
        let drawn: u64 = self.next;
        if drawn == u64::MAX {
            self.next = 0;
        } else {
            self.next = drawn + 1;
        }
        drawn
    }
}

/// Whether a character is a hexadecimal digit as [`hexadecimal`] writes it.
pub open spec fn is_hex_digit(c: char) -> bool {
    '0' <= c <= '9' || 'a' <= c <= 'f'
}

/// Whether a text consists of two numbers in hexadecimal with an underscore
/// between them.
pub open spec fn is_hex_pair(text: Seq<char>) -> bool {
    exists|at: int|
        #![trigger text[at]]
        0 < at < text.len() - 1 && text[at] == '_' && forall|i: int|
            0 <= i < text.len() && i != at ==> is_hex_digit(#[trigger] text[i])
}

/// A text that tells a test from all others: the time, and how many came before.
pub fn uuid_hex(nanos: u128, counter: &mut TestCounter) -> (r: String)
    ensures
        r@ == unique_text(nanos as nat, old(counter).next as nat),
        is_hex_pair(r@),
        *final(counter) == after_draw(*old(counter)),
{
    let drawn: u64 = counter.draw();
    proof {
        lemma_text_is_hex_pair(nanos as nat, drawn as nat);
    }
    hex_of(nanos).concat("_").concat(hex_of(drawn as u128).as_str())
}

/// The digits of the sixteen numbers are different, and none is an underscore.
proof fn lemma_digits(i: int)
    requires
        0 <= i < 16,
    ensures
        hex_digits()[i] as int == (if i < 10 {
            48 + i
        } else {
            87 + i
        }),
{
    reveal_strlit("0123456789abcdef");
    let digits = hex_digits();
    assert(digits[0] as int == 48 && digits[1] as int == 49 && digits[2] as int == 50
        && digits[3] as int == 51);
    assert(digits[4] as int == 52 && digits[5] as int == 53 && digits[6] as int == 54
        && digits[7] as int == 55);
    assert(digits[8] as int == 56 && digits[9] as int == 57 && digits[10] as int == 97
        && digits[11] as int == 98);
    assert(digits[12] as int == 99 && digits[13] as int == 100 && digits[14] as int == 101
        && digits[15] as int == 102);
}

/// A number in hexadecimal has at least one digit, and nothing but digits.
proof fn lemma_only_digits(n: nat)
    ensures
        hexadecimal(n).len() > 0,
        forall|i: int| 0 <= i < hexadecimal(n).len() ==> is_hex_digit(#[trigger] hexadecimal(n)[i]),
        forall|i: int| 0 <= i < hexadecimal(n).len() ==> #[trigger] hexadecimal(n)[i] != '_',
    decreases n,
{
    lemma_digits((n % 16) as int);
    if n >= 16 {
        lemma_only_digits(n / 16);
    }
}

/// Different numbers are different in hexadecimal.
pub proof fn lemma_hexadecimal_is_injective(a: nat, b: nat)
    requires
        hexadecimal(a) == hexadecimal(b),
    ensures
        a == b,
    decreases a,
{
    lemma_digits((a % 16) as int);
    lemma_digits((b % 16) as int);
    lemma_only_digits(a / 16);
    lemma_only_digits(b / 16);
    let x = hexadecimal(a);
    let y = hexadecimal(b);
    assert(x.last() == hex_digits()[(a % 16) as int]);
    assert(y.last() == hex_digits()[(b % 16) as int]);
    assert(a % 16 == b % 16);
    if a >= 16 && b >= 16 {
        assert(x.drop_last() =~= hexadecimal(a / 16));
        assert(y.drop_last() =~= hexadecimal(b / 16));
        lemma_hexadecimal_is_injective(a / 16, b / 16);
    } else {
        assert(a < 16 ==> x.len() == 1);
        assert(b < 16 ==> y.len() == 1);
    }
}

/// Two tests have the same text only if they came at the same time and as many
/// came before.
pub proof fn lemma_texts_differ(nanos: nat, counter: nat, other_nanos: nat, other_counter: nat)
    requires
        unique_text(nanos, counter) == unique_text(other_nanos, other_counter),
    ensures
        nanos == other_nanos,
        counter == other_counter,
{
    reveal_strlit("_");
    let a = hexadecimal(nanos);
    let b = hexadecimal(other_nanos);
    let x = unique_text(nanos, counter);
    let y = unique_text(other_nanos, other_counter);
    lemma_only_digits(nanos);
    lemma_only_digits(other_nanos);
    assert(x[a.len() as int] == '_');
    assert(y[b.len() as int] == '_');
    if a.len() < b.len() {
        assert(y[a.len() as int] == b[a.len() as int]);
    }
    if b.len() < a.len() {
        assert(x[b.len() as int] == a[b.len() as int]);
    }
    assert(a =~= x.take(a.len() as int));
    assert(b =~= y.take(b.len() as int));
    lemma_hexadecimal_is_injective(nanos, other_nanos);
    assert(hexadecimal(counter) =~= x.skip(a.len() as int + 1));
    assert(hexadecimal(other_counter) =~= y.skip(b.len() as int + 1));
    lemma_hexadecimal_is_injective(counter, other_counter);
}

/// The text for a test is a pair of numbers in hexadecimal.
proof fn lemma_text_is_hex_pair(nanos: nat, counter: nat)
    ensures
        is_hex_pair(unique_text(nanos, counter)),
{
    reveal_strlit("_");
    let a = hexadecimal(nanos);
    let b = hexadecimal(counter);
    let text = unique_text(nanos, counter);
    lemma_only_digits(nanos);
    lemma_only_digits(counter);
    let at = a.len() as int;
    assert(text[at] == '_');
    assert forall|i: int| 0 <= i < text.len() && i != at implies is_hex_digit(
        #[trigger] text[i],
    ) by {
        if i < at {
            assert(text[i] == a[i]);
        } else {
            assert(text[i] == b[i - at - 1]);
        }
    }
}

/// Each draw counts one up, and the numbers come round after all were drawn.
proof fn lemma_draws_count_up(counter: TestCounter, n: nat)
    ensures
        after_draws(counter, n).next == (counter.next + n) % 0x1_0000_0000_0000_0000,
    decreases n,
{
    if n > 0 {
        lemma_draws_count_up(counter, (n - 1) as nat);
    }
}

/// Of up to 2^64 texts in a row that are made with one counter, no two are the
/// same, whatever the clock says.
pub proof fn lemma_no_text_comes_twice(
    counter: TestCounter,
    i: nat,
    j: nat,
    nanos: nat,
    other_nanos: nat,
)
    requires
        i < j,
        j - i <= u64::MAX,
    ensures
        unique_text(nanos, after_draws(counter, i).next as nat) != unique_text(
            other_nanos,
            after_draws(counter, j).next as nat,
        ),
{
    lemma_draws_count_up(counter, i);
    lemma_draws_count_up(counter, j);
    let a = after_draws(counter, i).next as nat;
    let b = after_draws(counter, j).next as nat;
    if unique_text(nanos, a) == unique_text(other_nanos, b) {
        lemma_texts_differ(nanos, a, other_nanos, b);
    }
}

/// The name of a test's database.
pub fn database_name(config: &TestDatabaseConfig, unique: &str) -> (r: String)
    ensures
        r@ == (if config.unique_per_test {
            "janitor_test_"@ + unique@
        } else {
            "janitor_test"@
        }),
{
    if config.unique_per_test {
        "janitor_test_".to_owned().concat(unique)
    } else {
        "janitor_test".to_owned()
    }
}

/// The URL of a database on the same server: its name takes the place of what
/// stands behind the last slash.
pub fn database_url(config: &TestDatabaseConfig, name: &str) -> (r: String)
    ensures
        r@ == before_last(config.base_url@, '/') + "/"@ + name@,
{
    head_before_last(config.base_url.as_str(), '/').concat("/").concat(name)
}

} // verus!
