//! A model of the JSON request bodies that the handlers read: a top-level
//! object as a list of keyed values, each value kept as plain data.

use vstd::prelude::*;
use vstd::string::*;
use crate::texto::{cifra, decimal, decimal_entero, decimal_i64, decimal_u64};

verus! {

/// Lower-case hexadecimal digit for `d` (`d < 16`).
pub open spec fn hexadecimal(d: nat) -> char {
    if d < 10 {
        cifra(d)
    } else if d == 10 {
        'a'
    } else if d == 11 {
        'b'
    } else if d == 12 {
        'c'
    } else if d == 13 {
        'd'
    } else if d == 14 {
        'e'
    } else {
        'f'
    }
}

/// How one character is written inside a JSON string literal.
pub open spec fn escape_json(c: char) -> Seq<char> {
    if c == '"' {
        seq!['\\', '"']
    } else if c == '\\' {
        seq!['\\', '\\']
    } else if c == '\u{8}' {
        seq!['\\', 'b']
    } else if c == '\t' {
        seq!['\\', 't']
    } else if c == '\n' {
        seq!['\\', 'n']
    } else if c == '\u{c}' {
        seq!['\\', 'f']
    } else if c == '\r' {
        seq!['\\', 'r']
    } else if (c as nat) < 32 {
        seq!['\\', 'u', '0', '0', hexadecimal((c as nat) / 16), hexadecimal((c as nat) % 16)]
    } else {
        seq![c]
    }
}

/// The characters of `s`, each escaped as inside a JSON string literal.
pub open spec fn escapar_json(s: Seq<char>) -> Seq<char>
    decreases s.len(),
{
    if s.len() == 0 {
        seq![]
    } else {
        escapar_json(s.drop_last()) + escape_json(s.last())
    }
}

/// A JSON string literal holding `s`: quoted, with escapes.
pub open spec fn cadena_json(s: Seq<char>) -> Seq<char> {
    seq!['"'] + escapar_json(s) + seq!['"']
}

/// A character that a JSON string literal holds as it is: no quote, no
/// backslash, no control character.
pub open spec fn caracter_llano(c: char) -> bool {
    c != '"' && c != '\\' && (c as nat) >= 32
}

/// A text of plain characters is written inside a JSON string literal as it
/// is, so its literal is the text between two quotes.
pub proof fn texto_llano_en_json(s: Seq<char>)
    requires
        forall|i: int| 0 <= i < s.len() ==> caracter_llano(#[trigger] s[i]),
    ensures
        escapar_json(s) == s,
        cadena_json(s) == seq!['"'] + s + seq!['"'],
    decreases s.len(),
{
    if s.len() > 0 {
        texto_llano_en_json(s.drop_last());
        assert(caracter_llano(s[s.len() - 1]));
        assert(s.drop_last().push(s.last()) =~= s);
    }
}

/// The JSON text of a body's value, as `format!("{}", value)` writes it:
/// `null` when the key is absent; a string as a quoted JSON string literal,
/// which is longer than the string by its two quotes at least; a boolean as
/// `true` or `false`; an integer as its decimal numeral.
pub proof fn json_de_cada_valor(body: Cuerpo, k: Seq<char>)
    ensures
        !body.presente(k) ==> body.json_de(k) == seq!['n', 'u', 'l', 'l'],
        body.texto_en(k) ==> body.json_de(k) == seq!['"'] + escapar_json(body.texto_de(k)) + seq![
            '"',
        ],
        body.texto_en(k) ==> body.json_de(k).len() >= body.texto_de(k).len() + 2,
        body.texto_en(k) ==> body.json_de(k)[0] == '"' && body.json_de(k).last() == '"',
        body.campo(k) matches Some(Valor::Booleano(b)) ==> body.json_de(k) == if b {
            seq!['t', 'r', 'u', 'e']
        } else {
            seq!['f', 'a', 'l', 's', 'e']
        },
        body.campo(k) matches Some(Valor::Entero(i)) ==> body.json_de(k) == decimal_entero(i as int),
        body.campo(k) matches Some(Valor::Natural(n)) ==> body.json_de(k) == decimal(n as nat),
{
    if body.texto_en(k) {
        escapar_json_no_acorta(body.texto_de(k));
    }
}

/// Escaping never shortens a text.
pub proof fn escapar_json_no_acorta(s: Seq<char>)
    ensures
        escapar_json(s).len() >= s.len(),
    decreases s.len(),
{
    if s.len() > 0 {
        escapar_json_no_acorta(s.drop_last());
    }
}

#[verifier::external_type_specification]
#[verifier::external_body]
pub struct ExErrorJson(serde_json::Error);

/// Calls `serde_json::to_string` on a string slice. Trusted: the contract
/// claims that the call succeeds and writes the quoted string with JSON
/// escapes (quote, backslash, `\b \t \n \f \r`, other control characters as
/// `\u00xx` in lower-case hex, everything else unchanged), as the escape
/// table in serde_json's `ser.rs` shows.
#[verifier::external_body]
fn cadena_json_de(s: &str) -> (r: Result<String, serde_json::Error>)
    ensures
        r is Ok,
        r->Ok_0@ == cadena_json(s@),
{
    serde_json::to_string(s)
}

/// The JSON string literal holding `s`, as serde_json writes it.
pub(crate) fn cadena_json_texto(s: &str) -> (r: String)
    ensures
        r@ == cadena_json(s@),
{
    match cadena_json_de(s) {
        Ok(t) => t,
        Err(_) => String::new(),
    }
}

/// One JSON value as a handler reads it. Numbers keep serde_json's split
/// between values that fit an `i64`, larger unsigned values, and fractional
/// values; for a fractional number, an array or an object the value holds
/// the text that serde_json writes for it.
#[derive(Debug)]
pub enum Valor {
    Nulo,
    Booleano(bool),
    Entero(i64),
    Natural(u64),
    Decimal(String),
    Texto(String),
    Lista(String),
    Objeto(String),
}

impl Valor {
    /// `Value::is_string`.
    pub open spec fn es_texto(self) -> bool {
        self is Texto
    }

    /// `Value::is_boolean`.
    pub open spec fn es_booleano(self) -> bool {
        self is Booleano
    }

    /// `Value::is_number`.
    pub open spec fn es_numero(self) -> bool {
        self is Entero || self is Natural || self is Decimal
    }

    /// `Value::as_i64`.
    pub open spec fn entero(self) -> Option<i64> {
        match self {
            Valor::Entero(i) => Some(i),
            Valor::Natural(n) => if n <= i64::MAX as u64 {
                Some(n as i64)
            } else {
                None
            },
            _ => None,
        }
    }

    /// `Value::is_i64`.
    pub open spec fn es_i64(self) -> bool {
        self.entero() is Some
    }

    /// `Value::as_str`.
    pub open spec fn texto(self) -> Option<Seq<char>> {
        match self {
            Valor::Texto(s) => Some(s@),
            _ => None,
        }
    }

    /// The text that `format!("{}", value)` writes: compact JSON.
    pub open spec fn json(self) -> Seq<char> {
        match self {
            Valor::Nulo => seq!['n', 'u', 'l', 'l'],
            Valor::Booleano(b) => if b {
                seq!['t', 'r', 'u', 'e']
            } else {
                seq!['f', 'a', 'l', 's', 'e']
            },
            Valor::Entero(i) => decimal_entero(i as int),
            Valor::Natural(n) => decimal(n as nat),
            Valor::Decimal(t) => t@,
            Valor::Texto(s) => cadena_json(s@),
            Valor::Lista(t) => t@,
            Valor::Objeto(t) => t@,
        }
    }

    pub fn is_string(&self) -> (r: bool)
        ensures
            r == self.es_texto(),
    {
        match self {
            Valor::Texto(_) => true,
            _ => false,
        }
    }

    pub fn is_boolean(&self) -> (r: bool)
        ensures
            r == self.es_booleano(),
    {
        match self {
            Valor::Booleano(_) => true,
            _ => false,
        }
    }

    pub fn is_number(&self) -> (r: bool)
        ensures
            r == self.es_numero(),
    {
        match self {
            Valor::Entero(_) => true,
            Valor::Natural(_) => true,
            Valor::Decimal(_) => true,
            _ => false,
        }
    }

    pub fn as_i64(&self) -> (r: Option<i64>)
        ensures
            r == self.entero(),
    {
        match self {
            Valor::Entero(i) => Some(*i),
            Valor::Natural(n) => if *n <= i64::MAX as u64 {
                Some(*n as i64)
            } else {
                None
            },
            _ => None,
        }
    }

    pub fn is_i64(&self) -> (r: bool)
        ensures
            r == self.es_i64(),
    {
        self.as_i64().is_some()
    }

    pub fn as_str(&self) -> (r: Option<&str>)
        ensures
            match r {
                Some(s) => self.texto() == Some(s@),
                None => self.texto() is None,
            },
    {
        match self {
            Valor::Texto(s) => Some(s.as_str()),
            _ => None,
        }
    }

    /// The compact JSON text of the value, as `format!("{}", value)` writes it.
    pub fn mostrar(&self) -> (r: String)
        ensures
            r@ == self.json(),
    {
        match self {
            Valor::Nulo => {
                proof { reveal_strlit("null"); }
                String::from_str("null")
            },
            Valor::Booleano(b) => if *b {
                proof { reveal_strlit("true"); }
                String::from_str("true")
            } else {
                proof { reveal_strlit("false"); }
                String::from_str("false")
            },
            Valor::Entero(i) => decimal_i64(*i),
            Valor::Natural(n) => decimal_u64(*n),
            Valor::Decimal(t) => t.clone(),
            Valor::Texto(s) => cadena_json_texto(s.as_str()),
            Valor::Lista(t) => t.clone(),
            Valor::Objeto(t) => t.clone(),
        }
    }
}

/// A request body: the keys and values of its top-level object, in order
/// (empty when the body is not an object).
#[derive(Debug)]
pub struct Cuerpo {
    pub campos: Vec<(String, Valor)>,
}

impl Cuerpo {
    /// Whether some entry has key `k`.
    pub open spec fn tiene(self, k: Seq<char>) -> bool {
        exists|i: int| 0 <= i < self.campos@.len() && (#[trigger] self.campos@[i]).0@ == k
    }

    /// The index of the first entry with key `k`.
    pub open spec fn indice(self, k: Seq<char>) -> int {
        choose|i: int|
            0 <= i < self.campos@.len() && (#[trigger] self.campos@[i]).0@ == k && forall|j: int|
                0 <= j < i ==> (#[trigger] self.campos@[j]).0@ != k
    }

    /// `Value::get`: the value of the first entry with key `k`.
    pub open spec fn campo(self, k: Seq<char>) -> Option<Valor> {
        if self.tiene(k) {
            Some(self.campos@[self.indice(k)].1)
        } else {
            None
        }
    }

    /// `body.get(k).is_some()`.
    pub open spec fn presente(self, k: Seq<char>) -> bool {
        self.campo(k) is Some
    }

    /// The value at `k` is a string.
    pub open spec fn texto_en(self, k: Seq<char>) -> bool {
        self.campo(k) matches Some(v) && v.es_texto()
    }

    /// The value at `k` is a number that fits an `i64`.
    pub open spec fn i64_en(self, k: Seq<char>) -> bool {
        self.campo(k) matches Some(v) && v.es_i64()
    }

    /// The value at `k` is a number.
    pub open spec fn numero_en(self, k: Seq<char>) -> bool {
        self.campo(k) matches Some(v) && v.es_numero()
    }

    /// The value at `k` is a boolean.
    pub open spec fn booleano_en(self, k: Seq<char>) -> bool {
        self.campo(k) matches Some(v) && v.es_booleano()
    }

    /// The string at `k` (empty when there is none).
    pub open spec fn texto_de(self, k: Seq<char>) -> Seq<char> {
        match self.campo(k) {
            Some(Valor::Texto(s)) => s@,
            _ => Seq::empty(),
        }
    }

    /// The `i64` at `k` (zero when there is none).
    pub open spec fn i64_de(self, k: Seq<char>) -> i64 {
        match self.campo(k) {
            Some(v) => match v.entero() {
                Some(i) => i,
                None => 0,
            },
            None => 0,
        }
    }

    /// The JSON text of the value at `k`, `null` when the key is absent.
    pub open spec fn json_de(self, k: Seq<char>) -> Seq<char> {
        match self.campo(k) {
            Some(v) => v.json(),
            None => Valor::Nulo.json(),
        }
    }

    /// Whether the body has key `k`.
    pub fn tiene_clave(&self, k: &str) -> (r: bool)
        ensures
            r == self.presente(k@),
    {
        self.get(k).is_some()
    }

    /// Whether the value at `k` is a string.
    pub fn es_texto_en(&self, k: &str) -> (r: bool)
        ensures
            r == self.texto_en(k@),
    {
        match self.get(k) {
            Some(v) => v.is_string(),
            None => false,
        }
    }

    /// Whether the value at `k` is a number that fits an `i64`.
    pub fn es_i64_en(&self, k: &str) -> (r: bool)
        ensures
            r == self.i64_en(k@),
    {
        match self.get(k) {
            Some(v) => v.is_i64(),
            None => false,
        }
    }

    /// Whether the value at `k` is a number.
    pub fn es_numero_en(&self, k: &str) -> (r: bool)
        ensures
            r == self.numero_en(k@),
    {
        match self.get(k) {
            Some(v) => v.is_number(),
            None => false,
        }
    }

    /// The string at `k`, copied (empty when there is none).
    pub fn copia_texto(&self, k: &str) -> (r: String)
        ensures
            r@ == self.texto_de(k@),
    {
        match self.get(k) {
            Some(v) => match v.as_str() {
                Some(s) => String::from_str(s),
                None => String::new(),
            },
            None => String::new(),
        }
    }

    /// The `i64` at `k` (zero when there is none).
    pub fn i64_o_cero(&self, k: &str) -> (r: i64)
        ensures
            r == self.i64_de(k@),
    {
        match self.get(k) {
            Some(v) => match v.as_i64() {
                Some(i) => i,
                None => 0,
            },
            None => 0,
        }
    }

    /// The JSON text of the value at `k`, `null` when the key is absent, as
    /// `format!("{}", body.get(k).unwrap_or(&Value::Null))` writes it.
    pub fn mostrar_o_null(&self, k: &str) -> (r: String)
        ensures
            r@ == self.json_de(k@),
    {
        match self.get(k) {
            Some(v) => v.mostrar(),
            None => Valor::Nulo.mostrar(),
        }
    }

    pub fn get(&self, k: &str) -> (r: Option<&Valor>)
        ensures
            match r {
                Some(v) => self.campo(k@) == Some(*v),
                None => self.campo(k@) is None,
            },
    {
        let clave = String::from_str(k);
        let n = self.campos.len();
        let mut i: usize = 0;
        while i < n
            invariant
                n == self.campos@.len(),
                i <= n,
                clave@ == k@,
                forall|j: int| 0 <= j < i ==> (#[trigger] self.campos@[j]).0@ != k@,
            decreases n - i,
        {
            if self.campos[i].0 == clave {
                proof {
                    let w = self.indice(k@);
                    assert(self.tiene(k@)) by {
                        assert(self.campos@[i as int].0@ == k@);
                    }
                    if w < i {
                        assert(self.campos@[w].0@ != k@);
                    } else if w > i {
                        assert(self.campos@[i as int].0@ == k@);
                    }
                }
                return Some(&self.campos[i].1);
            }
            i = i + 1;
        }
        None
    }
}

} // verus!
