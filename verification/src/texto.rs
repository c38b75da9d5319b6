//! Text building blocks: decimal numerals.

use vstd::prelude::*;
use vstd::string::*;

verus! {

/// The ASCII digit for `d` (`d < 10`).
pub open spec fn cifra(d: nat) -> char {
    if d == 0 {
        '0'
    } else if d == 1 {
        '1'
    } else if d == 2 {
        '2'
    } else if d == 3 {
        '3'
    } else if d == 4 {
        '4'
    } else if d == 5 {
        '5'
    } else if d == 6 {
        '6'
    } else if d == 7 {
        '7'
    } else if d == 8 {
        '8'
    } else {
        '9'
    }
}

/// Decimal numeral of a natural number, most significant digit first,
/// without leading zeros.
pub open spec fn decimal(n: nat) -> Seq<char>
    decreases n,
{
    if n < 10 {
        seq![cifra(n)]
    } else {
        decimal(n / 10).push(cifra(n % 10))
    }
}

/// Decimal numeral of an integer, with a leading `-` when negative.
pub open spec fn decimal_entero(i: int) -> Seq<char> {
    if i < 0 {
        seq!['-'] + decimal((-i) as nat)
    } else {
        decimal(i as nat)
    }
}

fn texto_cifra(d: u64) -> (r: &'static str)
    requires
        d < 10,
    ensures
        r@ == seq![cifra(d as nat)],
{
    if d == 0 {
        proof { reveal_strlit("0"); }
        "0"
    } else if d == 1 {
        proof { reveal_strlit("1"); }
        "1"
    } else if d == 2 {
        proof { reveal_strlit("2"); }
        "2"
    } else if d == 3 {
        proof { reveal_strlit("3"); }
        "3"
    } else if d == 4 {
        proof { reveal_strlit("4"); }
        "4"
    } else if d == 5 {
        proof { reveal_strlit("5"); }
        "5"
    } else if d == 6 {
        proof { reveal_strlit("6"); }
        "6"
    } else if d == 7 {
        proof { reveal_strlit("7"); }
        "7"
    } else if d == 8 {
        proof { reveal_strlit("8"); }
        "8"
    } else {
        proof { reveal_strlit("9"); }
        "9"
    }
}

/// The decimal text of an unsigned number, as `format!("{}", n)` writes it.
pub fn decimal_u64(n: u64) -> (r: String)
    ensures
        r@ == decimal(n as nat),
    decreases n,
{
    if n < 10 {
        String::from_str(texto_cifra(n))
    } else {
        let mut s = decimal_u64(n / 10);
        s.append(texto_cifra(n % 10));
        s
    }
}

/// The decimal text of a signed number, as `format!("{}", n)` writes it.
pub fn decimal_i64(n: i64) -> (r: String)
    ensures
        r@ == decimal_entero(n as int),
{
    if n < 0 {
        let magnitud: u64 = if n == i64::MIN {
            9223372036854775808u64
        } else {
            (-n) as u64
        };
        let mut s = String::from_str("-");
        proof { reveal_strlit("-"); }
        s.append(decimal_u64(magnitud).as_str());
        s
    } else {
        decimal_u64(n as u64)
    }
}

/// Every character is an ASCII digit.
pub open spec fn solo_cifras(s: Seq<char>) -> bool {
    forall|i: int| 0 <= i < s.len() ==> '0' <= #[trigger] s[i] <= '9'
}

/// Whether `s` is a DNI: eight bytes long, all of them decimal digits (the
/// check `s.len() == 8 && s.chars().all(|c| c.is_digit(10))`).
pub fn dni_valido(s: &str) -> (r: bool)
    ensures
        r == (s.spec_bytes().len() == 8 && solo_cifras(s@)),
{
    let n = s.unicode_len();
    let mut i: usize = 0;
    while i < n
        invariant
            n == s@.len(),
            i <= n,
            forall|j: int| 0 <= j < i ==> '0' <= #[trigger] s@[j] <= '9',
        decreases n - i,
    {
        let c = s.get_char(i);
        if !('0' <= c && c <= '9') {
            return false;
        }
        i = i + 1;
    }
    proof {
        assert(vstd::utf8::is_ascii_chars(s@)) by {
            assert forall|j: int| 0 <= j < s@.len() implies '\0' <= #[trigger] s@[j] <= '\u{7f}' by {
                assert('0' <= s@[j] <= '9');
            }
        }
        vstd::utf8::is_ascii_chars_encode_utf8(s@);
    }
    n == 8
}

/// `c` is one of the ten decimal digits `0` to `9`.
pub open spec fn es_cifra_decimal(c: char) -> bool {
    ||| c == '0'
    ||| c == '1'
    ||| c == '2'
    ||| c == '3'
    ||| c == '4'
    ||| c == '5'
    ||| c == '6'
    ||| c == '7'
    ||| c == '8'
    ||| c == '9'
}

/// A text passes `solo_cifras` exactly when each of its characters is one
/// of the ten decimal digits, `9` included.
pub proof fn solo_cifras_son_las_diez(s: Seq<char>)
    ensures
        solo_cifras(s) <==> forall|i: int| 0 <= i < s.len() ==> es_cifra_decimal(#[trigger] s[i]),
{
    assert forall|i: int| 0 <= i < s.len() implies ('0' <= s[i] <= '9' <==> es_cifra_decimal(
        s[i],
    )) by {
        let c: char = s[i];
        assert('0' <= c <= '9' <==> 48 <= (c as int) <= 57);
    }
}

/// The value of a decimal digit.
pub open spec fn valor_cifra(c: char) -> int {
    (c as int) - ('0' as int)
}

/// The number that a text of decimal digits spells, most significant digit
/// first.
pub open spec fn leer_natural(s: Seq<char>) -> int
    decreases s.len(),
{
    if s.len() == 0 {
        0
    } else {
        leer_natural(s.drop_last()) * 10 + valor_cifra(s.last())
    }
}

/// The number that a decimal numeral spells, with a leading `-` when
/// negative.
pub open spec fn leer_entero(s: Seq<char>) -> int {
    if s.len() > 0 && s[0] == '-' {
        -leer_natural(s.drop_first())
    } else {
        leer_natural(s)
    }
}

/// The numeral of a natural number is a non-empty text of decimal digits
/// that reads back as the number.
pub proof fn decimal_se_lee(n: nat)
    ensures
        decimal(n).len() > 0,
        forall|i: int| 0 <= i < decimal(n).len() ==> es_cifra_decimal(#[trigger] decimal(n)[i]),
        leer_natural(decimal(n)) == n,
    decreases n,
{
    if n < 10 {
        assert(valor_cifra(cifra(n)) == n);
        assert(decimal(n).drop_last() =~= Seq::<char>::empty());
        assert(leer_natural(decimal(n)) == leer_natural(Seq::<char>::empty()) * 10 + valor_cifra(
            cifra(n),
        ));
    } else {
        decimal_se_lee(n / 10);
        let d: nat = n % 10;
        assert(valor_cifra(cifra(d)) == d);
        assert(decimal(n).drop_last() =~= decimal(n / 10));
        assert(decimal(n).last() == cifra(d));
        assert(leer_natural(decimal(n)) == leer_natural(decimal(n / 10)) * 10 + valor_cifra(
            cifra(d),
        ));
        assert(n == (n / 10) * 10 + d);
    }
}

/// The numeral of an integer reads back as the integer.
pub proof fn decimal_entero_se_lee(i: int)
    ensures
        decimal_entero(i).len() > 0,
        leer_entero(decimal_entero(i)) == i,
{
    if i < 0 {
        decimal_se_lee((-i) as nat);
        assert((seq!['-'] + decimal((-i) as nat)).drop_first() =~= decimal((-i) as nat));
    } else {
        decimal_se_lee(i as nat);
        assert(es_cifra_decimal(decimal(i as nat)[0]));
    }
}

/// A `LIKE` pattern that matches any text containing `n`.
pub open spec fn patron_contiene(n: Seq<char>) -> Seq<char> {
    "%"@ + n + "%"@
}

/// Builds `"%" + n + "%"`.
pub fn contiene(n: &str) -> (r: String)
    ensures
        r@ == patron_contiene(n@),
{
    let mut p = String::from_str("%");
    p.append(n);
    p.append("%");
    p
}

/// The texts of `partes` joined with `sep` between each two.
pub open spec fn unir(partes: Seq<Seq<char>>, sep: Seq<char>) -> Seq<char>
    decreases partes.len(),
{
    if partes.len() == 0 {
        seq![]
    } else if partes.len() == 1 {
        partes[0]
    } else {
        unir(partes.drop_last(), sep) + sep + partes.last()
    }
}

/// Joining one more part: the first part alone, or the join so far, the
/// separator and the new part.
pub proof fn unir_paso(partes: Seq<Seq<char>>, sep: Seq<char>, i: int)
    requires
        0 <= i < partes.len(),
    ensures
        unir(partes.take(i + 1), sep) == if i == 0 {
            partes[0]
        } else {
            unir(partes.take(i), sep) + sep + partes[i]
        },
{
    if i > 0 {
        assert(partes.take(i + 1).drop_last() =~= partes.take(i));
    }
}

} // verus!
