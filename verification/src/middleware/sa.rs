//! The login check that guards the protected routes, and the body of the
//! refusals that the service sends.

use vstd::prelude::*;
use vstd::string::*;
use super::jwt::{expiracion_para, Claims, DOS_SEMANAS, MARCA_MAXIMA, MARCA_MINIMA};

verus! {

/// The JSON body of a refusal: a message and an optional code.
#[derive(Debug)]
pub struct ResponseBody {
    pub message: String,
    pub code: Option<String>,
}

impl ResponseBody {
    /// The refusal has message `m` and code `c`.
    pub open spec fn es(self, m: Seq<char>, c: Seq<char>) -> bool {
        &&& self.message@ == m
        &&& self.code matches Some(x) && x@ == c
    }

    /// The refusal has message `m` and no code.
    pub open spec fn sin_codigo(self, m: Seq<char>) -> bool {
        &&& self.message@ == m
        &&& self.code is None
    }

    /// A refusal with message `m` and code `c`.
    pub fn rechazo(m: &str, c: &str) -> (r: ResponseBody)
        ensures
            r.es(m@, c@),
    {
        ResponseBody { message: String::from_str(m), code: Some(String::from_str(c)) }
    }
}

/// Whether chrono can turn second `s` since the epoch into a date.
pub open spec fn marca_representable(s: int) -> bool {
    MARCA_MINIMA <= s <= MARCA_MAXIMA
}

/// Calls `chrono::NaiveDateTime::from_timestamp_opt(secs, 0)` and tells
/// whether it gave a date. Trusted: the contract claims that it does exactly
/// for the seconds from `DateTime::<Utc>::MIN_UTC` to `MAX_UTC`, the start
/// of year -262143 to the end of year 262142, the range of `NaiveDate` that
/// chrono's source sets.
#[verifier::external_body]
#[allow(deprecated)]
fn fecha_de_marca_existe(secs: i64) -> (r: bool)
    ensures
        r == marca_representable(secs as int),
{
    chrono::NaiveDateTime::from_timestamp_opt(secs, 0).is_some()
}

/// Whether the expiry `exp` of a decoded token can be read as a date; the
/// check panics on the others.
pub open spec fn expiracion_valida(exp: usize) -> bool {
    marca_representable((exp as i64) as int)
}

/// Tells whether the expiry `exp` of a decoded token can be read as a date.
pub fn expiracion_representable(exp: usize) -> (r: bool)
    ensures
        r == expiracion_valida(exp),
{
    fecha_de_marca_existe(exp as i64)
}

/// A token with expiry `exp` has expired at second `ahora`: the current
/// moment is at or after the expiry.
pub open spec fn vencido(exp: usize, ahora: i64) -> bool {
    ahora >= exp as i64
}

/// A session lasts two weeks: a token issued at second `emision` counts as
/// expired at second `ahora` exactly when two weeks or more have passed.
pub proof fn vigencia_de_dos_semanas(emision: i64, ahora: i64)
    requires
        0 <= emision,
        emision + DOS_SEMANAS <= i64::MAX,
        emision + DOS_SEMANAS <= usize::MAX,
    ensures
        vencido(expiracion_para(emision), ahora) <==> ahora >= emision + DOS_SEMANAS,
{
}

/// The claims text of `token` when jsonwebtoken's `decode`, with the HMAC
/// key `secreto` and `Validation::default()` less its expiry check, accepts
/// it: three dot-separated base64 parts, header algorithm HS256, an
/// HMAC-SHA256 signature that verifies, claims that hold a numeric `exp` and
/// no `aud`. `None` otherwise.
pub uninterp spec fn token_hs256(secreto: Seq<char>, token: Seq<char>) -> Option<Seq<char>>;

/// The HS256 signature of `token` verifies under `secreto` (and the token
/// passes jsonwebtoken's checks other than the expiry).
pub open spec fn firma_hs256_valida(secreto: Seq<char>, token: Seq<char>) -> bool {
    token_hs256(secreto, token) is Some
}

/// Calls `jsonwebtoken::decode::<Box<RawValue>>` on `token` with the HMAC
/// key made from the bytes of `secreto` and `Validation::default()` with
/// `validate_exp` off, and gives the claims text. Trusted: the contract
/// claims that the result is exactly `token_hs256` of the two texts. With the
/// expiry check off, `decode` reads no clock, and `exp` is still required.
#[verifier::external_body]
fn reclamos_del_token(token: &str, secreto: &str) -> (r: Option<String>)
    ensures
        match r {
            Some(c) => token_hs256(secreto@, token@) == Some(c@),
            None => token_hs256(secreto@, token@) is None,
        },
{
    let mut validacion = jsonwebtoken::Validation::default();
    validacion.validate_exp = false;
    match jsonwebtoken::decode::<Box<serde_json::value::RawValue>>(
        token,
        &jsonwebtoken::DecodingKey::from_secret(secreto.as_bytes()),
        &validacion,
    ) {
        Ok(datos) => Some(datos.claims.get().to_string()),
        Err(_) => None,
    }
}

/// The margin, in seconds, by which jsonwebtoken lets an expiry pass before
/// it refuses the token.
pub const MARGEN_DE_EXPIRACION: i64 = 60;

/// A token with expiry `exp` is refused outright at second `ahora`: its
/// expiry lies more than the margin in the past.
pub open spec fn caducado(exp: usize, ahora: i64) -> bool {
    (exp as int) < ahora - MARGEN_DE_EXPIRACION
}

/// Whether expiry `exp` lies more than the margin before second `ahora`.
fn expira_antes_del_margen(exp: usize, ahora: i64) -> (r: bool)
    ensures
        r == caducado(exp, ahora),
{
    if ahora < i64::MIN + MARGEN_DE_EXPIRACION {
        false
    } else {
        let limite: i64 = ahora - MARGEN_DE_EXPIRACION;
        limite >= 0 && (exp as u64) < (limite as u64)
    }
}

/// A token that passed jsonwebtoken's checks other than the expiry under the
/// key "SECRET_KEY", with its claims text.
#[derive(Debug)]
pub struct TokenVerificado {
    token: String,
    carga: String,
}

impl TokenVerificado {
    #[verifier::type_invariant]
    spec fn firmado(self) -> bool {
        token_hs256("SECRET_KEY"@, self.token@) == Some(self.carga@)
    }

    /// The token.
    pub closed spec fn token_texto(self) -> Seq<char> {
        self.token@
    }

    /// Its claims text.
    pub closed spec fn carga_texto(self) -> Seq<char> {
        self.carga@
    }

    /// The claims text, for reading the claims.
    pub fn carga(&self) -> (r: &str)
        ensures
            r@ == self.carga_texto(),
    {
        self.carga.as_str()
    }
}

/// The outcome of the first step of the login check.
#[derive(Debug)]
pub enum Verificacion {
    /// Answer 401 with this body as JSON.
    Rechazado(ResponseBody),
    /// The token verified; its claims are read next.
    Verificado(TokenVerificado),
}

/// What the login check does with a request.
#[derive(Debug)]
pub enum Acceso {
    /// Answer 401 with this body as JSON.
    Rechazado(ResponseBody),
    /// Fail with 401 and the JSON object `{"message": ..}`.
    Expirado(String),
    /// Pass the request on to the guarded route.
    Permitido,
}

/// The factory of the login check.
#[derive(Debug)]
pub struct JWT;

/// The login check wrapped around a service.
#[derive(Debug)]
pub struct CheckLoginMiddleware<S> {
    service: S,
}

impl JWT {
    /// Wraps `service` in the login check.
    pub fn new_transform<S>(&self, service: S) -> (m: CheckLoginMiddleware<S>)
        ensures
            m.servicio() == service,
    {
        CheckLoginMiddleware { service }
    }
}

impl<S> CheckLoginMiddleware<S> {
    /// The wrapped service.
    pub closed spec fn servicio(self) -> S {
        self.service
    }

    /// The wrapped service.
    pub fn service(&self) -> (r: &S)
        ensures
            *r == self.servicio(),
    {
        &self.service
    }

    /// First step of the check, on the `token` header: no header is refused
    /// with message "n"; a token that jsonwebtoken does not accept under the
    /// key "SECRET_KEY" (bad form, algorithm other than HS256, wrong
    /// signature, no `exp`) with "token invalido"; an accepted one is handed
    /// on with its claims text. Its expiry is judged by `autorizar`.
    pub fn call(&self, token: Option<&str>) -> (r: Verificacion)
        ensures
            token is None ==> (r matches Verificacion::Rechazado(b) && b.sin_codigo("n"@)),
            token matches Some(t) ==> (match r {
                Verificacion::Rechazado(b) => {
                    &&& b.sin_codigo("token invalido"@)
                    &&& token_hs256("SECRET_KEY"@, t@) is None
                },
                Verificacion::Verificado(v) => {
                    &&& v.token_texto() == t@
                    &&& token_hs256("SECRET_KEY"@, t@) == Some(v.carga_texto())
                },
            }),
    {
        match token {
            None => Verificacion::Rechazado(
                ResponseBody { message: String::from_str("n"), code: None },
            ),
            Some(t) => match reclamos_del_token(t, "SECRET_KEY") {
                None => Verificacion::Rechazado(
                    ResponseBody { message: String::from_str("token invalido"), code: None },
                ),
                Some(carga) => Verificacion::Verificado(
                    TokenVerificado { token: String::from_str(t), carga },
                ),
            },
        }
    }

    /// Whether a verified token with the claims `reclamos` (`None` when they
    /// do not read as `Claims`) gets past decoding at second `ahora`: its
    /// claims read and its expiry lies at most the margin in the past. Only
    /// such a token reaches the guarded service and the reading of its
    /// expiry as a date.
    pub fn decodificacion_aceptada(&self, reclamos: Option<&Claims>, ahora: i64) -> (r: bool)
        ensures
            r == (reclamos matches Some(c) && !caducado(c.exp, ahora)),
    {
        match reclamos {
            None => false,
            Some(c) => !expira_antes_del_margen(c.exp, ahora),
        }
    }

    /// Second step of the check, on a verified token, the claims read from
    /// its claims text (`None` when they do not read as `Claims`) and the
    /// current second `ahora`: unreadable claims, and an expiry more than a
    /// minute in the past, are refused with "token invalido"; otherwise, at
    /// or past the expiry the answer is "El token ha expirado", and before it
    /// the request passes, and only then. An expiry that chrono cannot read
    /// as a date is left out where it is reached: the check panics there.
    pub fn autorizar(&self, v: &TokenVerificado, reclamos: Option<&Claims>, ahora: i64) -> (r: Acceso)
        requires
            reclamos matches Some(c) ==> (!caducado(c.exp, ahora) ==> expiracion_valida(c.exp)),
        ensures
            r is Permitido ==> firma_hs256_valida("SECRET_KEY"@, v.token_texto()),
            r is Permitido ==> (reclamos matches Some(c) && !caducado(c.exp, ahora) && !vencido(c.exp, ahora)),
            match reclamos {
                None => r matches Acceso::Rechazado(b) && b.sin_codigo("token invalido"@),
                Some(c) => if caducado(c.exp, ahora) {
                    r matches Acceso::Rechazado(b) && b.sin_codigo("token invalido"@)
                } else if vencido(c.exp, ahora) {
                    r matches Acceso::Expirado(m) && m@ == "El token ha expirado"@
                } else {
                    r is Permitido
                },
            },
    {
        proof {
            use_type_invariant(v);
        }
        if !self.decodificacion_aceptada(reclamos, ahora) {
            return Acceso::Rechazado(
                ResponseBody { message: String::from_str("token invalido"), code: None },
            );
        }
        match reclamos {
            None => Acceso::Rechazado(
                ResponseBody { message: String::from_str("token invalido"), code: None },
            ),
            Some(c) => {
                let expira: i64 = c.exp as i64;
                if ahora >= expira {
                    Acceso::Expirado(String::from_str("El token ha expirado"))
                } else {
                    Acceso::Permitido
                }
            },
        }
    }
}

} // verus!
