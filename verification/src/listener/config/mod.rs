pub mod websocket_config;

use vstd::prelude::*;
use vstd::string::StringExecFns;

use crate::connection::ConnectionConfig;

pub use self::websocket_config::WebSocketConfig;

verus! {

/// The port a listener binds to when nothing else is configured.
pub const DEFAULT_PORT: u16 = 8080;

/// Configures the listener.
#[derive(Debug, Clone)]
pub struct ListenerConfig {
    /// Interface to which the listener will bind.
    ///
    /// Default: `"127.0.0.1"`
    pub interface: String,

    /// Port to which the listener will bind.
    ///
    /// Default: `8080`
    pub port: u16,

    /// Configuration for WebSockets.
    pub websocket_config: WebSocketConfig,

    /// Configuration for peer connections.
    pub connection_config: ConnectionConfig,
}

/// The decimal digit for `d`, which is below ten.
pub open spec fn digit_char(d: nat) -> char {
    if d == 0 { '0' }
    else if d == 1 { '1' }
    else if d == 2 { '2' }
    else if d == 3 { '3' }
    else if d == 4 { '4' }
    else if d == 5 { '5' }
    else if d == 6 { '6' }
    else if d == 7 { '7' }
    else if d == 8 { '8' }
    else { '9' }
}

/// The decimal digits of `n`, most significant first, without leading zeros.
pub open spec fn decimal(n: nat) -> Seq<char>
    decreases n,
{
    if n < 10 {
        seq![digit_char(n)]
    } else {
        decimal(n / 10).push(digit_char(n % 10))
    }
}

/// The number that the decimal digits `digits` denote, read most
/// significant first: each character counts for its distance from `'0'`.
pub open spec fn decimal_value(digits: Seq<char>) -> int
    decreases digits.len(),
{
    if digits.len() == 0 {
        0
    } else {
        10 * decimal_value(digits.drop_last()) + (digits.last() as int - '0' as int)
    }
}

/// Whether `c` is one of the characters `'0'` to `'9'`.
pub open spec fn is_decimal_digit(c: char) -> bool {
    '0' <= c <= '9'
}

/// The character `digit_char` writes for a digit stands for that digit.
proof fn lemma_digit_char_value(d: nat)
    requires
        d < 10,
    ensures
        digit_char(d) as int - '0' as int == d,
        is_decimal_digit(digit_char(d)),
{
    assert('0' as int == 48);
    assert('1' as int == 49);
    assert('2' as int == 50);
    assert('3' as int == 51);
    assert('4' as int == 52);
    assert('5' as int == 53);
    assert('6' as int == 54);
    assert('7' as int == 55);
    assert('8' as int == 56);
    assert('9' as int == 57);
}

/// The digits that `decimal` writes denote the number they were written for:
/// every character is a decimal digit, read back as a decimal number they
/// give `n`, and they start with `'0'` only when `n` is zero.
pub proof fn lemma_decimal_denotes_its_number(n: nat)
    ensures
        decimal_value(decimal(n)) == n,
        forall|i: int| 0 <= i < decimal(n).len() ==> is_decimal_digit(#[trigger] decimal(n)[i]),
        decimal(n).len() > 0,
        decimal(n)[0] == '0' ==> n == 0,
    decreases n,
{
    if n < 10 {
        lemma_digit_char_value(n);
        assert(decimal(n).drop_last() =~= Seq::<char>::empty());
        assert(decimal_value(Seq::<char>::empty()) == 0);
        assert(decimal(n).last() == digit_char(n));
    } else {
        lemma_digit_char_value(n % 10);
        lemma_decimal_denotes_its_number(n / 10);
        let prefix = decimal(n / 10);
        assert(decimal(n).drop_last() =~= prefix);
        assert(decimal(n).last() == digit_char(n % 10));
        assert(decimal_value(decimal(n)) == 10 * decimal_value(prefix) + (digit_char(n % 10) as int - '0' as int));
        assert(n == 10 * (n / 10) + n % 10);
        assert(decimal(n)[0] == prefix[0]);
        assert forall|i: int| 0 <= i < decimal(n).len() implies is_decimal_digit(#[trigger] decimal(n)[i]) by {
            if i < prefix.len() {
                assert(decimal(n)[i] == prefix[i]);
            }
        }
    }
}

/// The socket address text names the configured port: after the interface
/// and the colon come decimal digits that, read back, give the port.
pub proof fn lemma_socket_address_names_port(interface: Seq<char>, port: u16)
    ensures
        ({
            let text = interface + ":"@ + decimal(port as nat);
            let digits = text.subrange(interface.len() as int + 1, text.len() as int);
            &&& text.subrange(0, interface.len() as int) == interface
            &&& decimal_value(digits) == port
            &&& forall|i: int| 0 <= i < digits.len() ==> is_decimal_digit(#[trigger] digits[i])
        }),
{
    reveal_strlit(":");
    lemma_decimal_denotes_its_number(port as nat);
    let text = interface + ":"@ + decimal(port as nat);
    assert(text.subrange(interface.len() as int + 1, text.len() as int) =~= decimal(port as nat));
    assert(text.subrange(0, interface.len() as int) =~= interface);
}

/// The text of the digit `d`.
fn digit_text(d: u16) -> (r: &'static str)
    requires
        d < 10,
    ensures
        r@ == seq![digit_char(d as nat)],
{
    proof {
        reveal_strlit("0");
        reveal_strlit("1");
        reveal_strlit("2");
        reveal_strlit("3");
        reveal_strlit("4");
        reveal_strlit("5");
        reveal_strlit("6");
        reveal_strlit("7");
        reveal_strlit("8");
        reveal_strlit("9");
    }
    match d {
        0 => "0",
        1 => "1",
        2 => "2",
        3 => "3",
        4 => "4",
        5 => "5",
        6 => "6",
        7 => "7",
        8 => "8",
        _ => "9",
    }
}

/// Appends the decimal digits of `n` to `text`.
fn push_decimal(text: &mut String, n: u16)
    ensures
        final(text)@ == old(text)@ + decimal(n as nat),
    decreases n,
{
    if n >= 10 {
        push_decimal(text, n / 10);
    }
    let digit = digit_text(n % 10);
    text.append(digit);
    assert(final(text)@ =~= old(text)@ + decimal(n as nat)) by {
        if n >= 10 {
            assert(decimal(n as nat) == decimal((n / 10) as nat).push(digit_char((n % 10) as nat)));
        }
    }
}

impl ListenerConfig {
    /// The socket address to bind to, as text: the interface, a colon and
    /// the port in decimal.
    pub fn socket_address(&self) -> (r: String)
        ensures
            r@ == self.interface@ + ":"@ + decimal(self.port as nat),
    {
        let mut text = self.interface.clone();
        text.append(":");
        push_decimal(&mut text, self.port);
        text
    }
}

impl Default for ListenerConfig {
    fn default() -> (r: Self)
        ensures
            r.interface@ == "127.0.0.1"@,
            r.port == DEFAULT_PORT,
            r.websocket_config.max_message_size == 16 * websocket_config::MEGA,
            r.websocket_config.max_frame_size == 4 * websocket_config::MEGA,
            r.connection_config.ping_interval == crate::connection::config::DEFAULT_PING_INTERVAL_NS,
            r.connection_config.pong_timeout == crate::connection::config::DEFAULT_PONG_TIMEOUT_NS,
    {
        ListenerConfig {
            interface: "127.0.0.1".to_owned(),
            port: DEFAULT_PORT,
            websocket_config: WebSocketConfig::default(),
            connection_config: ConnectionConfig::default(),
        }
    }
}

} // verus!
