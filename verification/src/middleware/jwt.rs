//! Session claims carried by the tokens that the service issues.

use vstd::prelude::*;
use vstd::string::*;
use crate::texto::{decimal, decimal_entero, decimal_i64, decimal_u64};
use crate::valor::{cadena_json, cadena_json_texto};

verus! {

/// Length of a session, two weeks, in seconds.
pub const DOS_SEMANAS: i64 = 1209600;

/// The earliest second since the epoch that chrono can turn into a date.
pub const MARCA_MINIMA: i64 = -8334601228800;

/// The latest second since the epoch that chrono can turn into a date.
pub const MARCA_MAXIMA: i64 = 8210266876799;

/// The claims of a session token.
#[derive(Debug)]
pub struct Claims {
    pub sub: String,
    pub exp: usize,
    pub lvl: Option<i32>,
    pub nombre: String,
}

/// The expiry written into a token issued at second `emision`.
pub open spec fn expiracion_para(emision: i64) -> usize {
    (emision + DOS_SEMANAS) as usize
}

impl Claims {
    /// The claims of a token issued at second `ahora` to user `user_id` with
    /// level `level`: the subject is the user id in decimal, the token
    /// expires two weeks later. Issuing later than chrono's last date minus
    /// two weeks is left out: chrono panics there.
    pub fn emitir(user_id: i32, level: i32, nombre: String, ahora: i64) -> (c: Claims)
        requires
            ahora + DOS_SEMANAS <= MARCA_MAXIMA,
        ensures
            c.sub@ == decimal_entero(user_id as int),
            c.exp == expiracion_para(ahora),
            c.lvl == Some(level),
            c.nombre == nombre,
    {
        let fin: i64 = ahora + DOS_SEMANAS;
        Claims { sub: decimal_i64(user_id as i64), exp: fin as usize, lvl: Some(level), nombre }
    }
}

/// The JSON text that serde_json writes for claims with these fields, in
/// the order `sub`, `exp`, `lvl`, `nombre`.
pub open spec fn carga_claims(sub: Seq<char>, exp: nat, lvl: Option<i32>, nombre: Seq<char>) -> Seq<
    char,
> {
    "{\"sub\":"@ + cadena_json(sub) + ",\"exp\":"@ + decimal(exp) + ",\"lvl\":"@ + (match lvl {
        Some(l) => decimal_entero(l as int),
        None => "null"@,
    }) + ",\"nombre\":"@ + cadena_json(nombre) + "}"@
}

impl Claims {
    /// The JSON text of the claims.
    pub open spec fn carga(self) -> Seq<char> {
        carga_claims(self.sub@, self.exp as nat, self.lvl, self.nombre@)
    }

    /// Writes the claims as JSON, as serde_json does.
    pub fn a_json(&self) -> (r: String)
        ensures
            r@ == self.carga(),
    {
        let mut t = String::from_str("{\"sub\":");
        t.append(cadena_json_texto(self.sub.as_str()).as_str());
        t.append(",\"exp\":");
        t.append(decimal_u64(self.exp as u64).as_str());
        t.append(",\"lvl\":");
        match self.lvl {
            Some(l) => t.append(decimal_i64(l as i64).as_str()),
            None => t.append("null"),
        }
        t.append(",\"nombre\":");
        t.append(cadena_json_texto(self.nombre.as_str()).as_str());
        t.append("}");
        t
    }
}

/// The text of a JWT with jsonwebtoken's default header (HS256), the
/// payload `carga` as given, and the HMAC-SHA256 signature under `secreto`.
pub uninterp spec fn jwt_hs256(secreto: Seq<char>, carga: Seq<char>) -> Seq<char>;

/// Calls `jsonwebtoken::encode` with the default header, an HMAC key made
/// from the bytes of `secreto`, and the payload `carga` as a
/// `serde_json::value::RawValue`, whose serialization is the text itself.
/// Trusted: the contract claims that the result is the named function of
/// the secret and the payload, and that the call succeeds on the claims
/// texts that `carga_claims` frames: they are valid JSON, which is all that
/// `RawValue::from_string` checks, and `encode` fails only on a key of
/// another family than the header's algorithm.
#[verifier::external_body]
fn firmar_hs256(secreto: &str, carga: String) -> (r: Option<String>)
    ensures
        (exists|a: Seq<char>, e: nat, l: Option<i32>, b: Seq<char>|
            carga@ == #[trigger] carga_claims(a, e, l, b)) ==> r is Some,
        r matches Some(t) ==> t@ == jwt_hs256(secreto@, carga@),
{
    match serde_json::value::RawValue::from_string(carga) {
        Ok(raw) => jsonwebtoken::encode(
            &jsonwebtoken::Header::default(),
            &raw,
            &jsonwebtoken::EncodingKey::from_secret(secreto.as_bytes()),
        ).ok(),
        Err(_) => None,
    }
}

/// The token issued at second `ahora` to user `user_id` with level `level`
/// and name `nombre`: the claims of `Claims::emitir`, signed with the
/// service's issuing secret.
pub open spec fn token_emitido(user_id: i32, level: i32, nombre: Seq<char>, ahora: i64) -> Seq<char> {
    jwt_hs256(
        "*Asdf-Xasdfadf2eee"@,
        carga_claims(
            decimal_entero(user_id as int),
            expiracion_para(ahora) as nat,
            Some(level),
            nombre,
        ),
    )
}

/// Issues a session token at second `ahora` (read from the clock by the
/// caller). Issuing later than chrono's last date minus two weeks is left
/// out: chrono panics there.
pub fn generate_token(user_id: i32, level: i32, nombre: String, ahora: i64) -> (t: String)
    requires
        ahora + DOS_SEMANAS <= MARCA_MAXIMA,
    ensures
        t@ == token_emitido(user_id, level, nombre@, ahora),
{
    let claims = Claims::emitir(user_id, level, nombre, ahora);
    let carga = claims.a_json();
    proof {
        assert(carga@ == carga_claims(claims.sub@, claims.exp as nat, claims.lvl, claims.nombre@));
    }
    match firmar_hs256("*Asdf-Xasdfadf2eee", carga) {
        Some(t) => t,
        None => String::new(),
    }
}

} // verus!
