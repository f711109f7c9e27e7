//! The website server's start-up decisions: whether its site directory and
//! Stripe key will do, how it serves static files, and where its TLS
//! certificates are.

use vstd::prelude::*;
use crate::paths::{camino_join, joined};

verus! {

/// Why the server refuses to start.
#[derive(Debug)]
pub enum ServerError {
    SiteDirMissing,
    SiteDirNotDir,
    LiveStripeKeyOutsideProduction,
    /// The certificates directory named by `JYD_CERTS` is not a directory.
    CertsDirMissing { path: String },
    /// A certificate file could not be read; the message is the system's.
    CertFile { message: String },
}

pub open spec fn spec_error_message(e: ServerError) -> Seq<char> {
    match e {
        ServerError::SiteDirMissing => "Site directory does not exist"@,
        ServerError::SiteDirNotDir => "Site directory is not a directory"@,
        ServerError::LiveStripeKeyOutsideProduction => "Shouldn't be using a live Stripe API key if not in production!!"@,
        ServerError::CertsDirMissing { path } => "Couldn't find certs directory at "@ + path@,
        ServerError::CertFile { message } => message@,
    }
}

impl ServerError {
    /// The message the server stops with.
    pub fn message(&self) -> (r: String)
        ensures
            r@ == spec_error_message(*self),
    {
        match self {
            ServerError::SiteDirMissing => "Site directory does not exist".to_owned(),
            ServerError::SiteDirNotDir => "Site directory is not a directory".to_owned(),
            ServerError::LiveStripeKeyOutsideProduction => "Shouldn't be using a live Stripe API key if not in production!!".to_owned(),
            ServerError::CertsDirMissing { path } => {
                let mut m = "Couldn't find certs directory at ".to_owned();
                m.append(path.as_str());
                m
            },
            ServerError::CertFile { message } => message.clone(),
        }
    }
}

/// Checks the site directory, given whether it exists and whether it is a directory.
pub fn check_site_dir(exists: bool, is_dir: bool) -> (r: Result<(), ServerError>)
    ensures
        !exists ==> r matches Err(ServerError::SiteDirMissing),
        exists && !is_dir ==> r matches Err(ServerError::SiteDirNotDir),
        exists && is_dir ==> r is Ok,
{
    if !exists {
        return Err(ServerError::SiteDirMissing);
    }
    if !is_dir {
        return Err(ServerError::SiteDirNotDir);
    }
    Ok(())
}

/// `needle` occurs in `hay` as a run of consecutive characters.
pub open spec fn contains_text(hay: Seq<char>, needle: Seq<char>) -> bool {
    exists|i: int| 0 <= i && i + needle.len() <= hay.len() && #[trigger] hay.subrange(i, i + needle.len()) == needle
}

/// The characters of a text, in order.
fn text_chars(s: &str) -> (r: Vec<char>)
    ensures
        r@ == s@,
{
    broadcast use vstd::string::axiom_spec_iter;

    let mut v: Vec<char> = Vec::new();
    for c in it: s.chars()
        invariant
            it.seq() == s@,
            v@ == it.seq().take(it.index() as int),
    {
        v.push(c);
    }
    assert(v@ =~= s@);
    v
}

/// Whether `needle` occurs in `hay`.
pub fn contains(hay: &str, needle: &str) -> (r: bool)
    ensures
        r == contains_text(hay@, needle@),
{
    let h = text_chars(hay);
    let n = text_chars(needle);
    let hl = h.len();
    let nl = n.len();
    if nl > hl {
        return false;
    }
    let mut i: usize = 0;
    while i <= hl - nl
        invariant
            h@ == hay@,
            n@ == needle@,
            hl == h.len(),
            nl == n.len(),
            nl <= hl,
            i <= hl - nl + 1,
            forall|t: int| 0 <= t < i ==> #[trigger] h@.subrange(t, t + nl) != n@,
        decreases hl - i,
    {
        let mut j: usize = 0;
        let mut same = true;
        while j < nl
            invariant
                h@ == hay@,
                n@ == needle@,
                hl == h.len(),
                nl == n.len(),
                i + nl <= hl,
                j <= nl,
                same == (forall|k: int| 0 <= k < j ==> h@[i + k] == n@[k]),
            decreases nl - j,
        {
            if h[i + j] != n[j] {
                same = false;
            }
            j = j + 1;
        }
        if same {
            assert(h@.subrange(i as int, i + nl) =~= n@);
            return true;
        } else {
            proof {
                let k = choose|k: int| 0 <= k < nl && h@[i + k] != n@[k];
                assert(h@.subrange(i as int, i + nl)[k] != n@[k]);
            }
        }
        i = i + 1;
    }
    proof {
        assert forall|t: int| 0 <= t && t + nl <= hl implies #[trigger] h@.subrange(t, t + nl) != n@ by {
            assert(t < i);
        }
    }
    false
}

/// Which kind of Stripe key the server was built with.
#[derive(Clone, Copy, PartialEq, Eq, Structural, Debug)]
pub enum StripeKeyKind {
    Live,
    Test,
}

/// Checks the Stripe key: a key that mentions `prod` is a live key, which is
/// refused unless the server is built for production.
pub fn check_stripe_key(key: &str, prod_feature: bool) -> (r: Result<StripeKeyKind, ServerError>)
    ensures
        contains_text(key@, "prod"@) && prod_feature ==> r == Ok::<StripeKeyKind, ServerError>(
            StripeKeyKind::Live,
        ),
        contains_text(key@, "prod"@) && !prod_feature ==> r matches Err(
            ServerError::LiveStripeKeyOutsideProduction,
        ),
        !contains_text(key@, "prod"@) ==> r == Ok::<StripeKeyKind, ServerError>(StripeKeyKind::Test),
{
    if contains(key, "prod") {
        if !prod_feature {
            return Err(ServerError::LiveStripeKeyOutsideProduction);
        }
        Ok(StripeKeyKind::Live)
    } else {
        Ok(StripeKeyKind::Test)
    }
}

/// How the site directory is served.
#[derive(Debug)]
pub struct ServeDirConfig {
    pub dir: String,
    /// Serve `.br` files in place of the originals where the client accepts them.
    pub precompressed_br: bool,
    /// Serve `.gz` files in place of the originals where the client accepts them.
    pub precompressed_gzip: bool,
}

/// Serves the site directory as it is under `cargo leptos serve` (when
/// `JYD_DEV_SERVE` is set), else with its pre-compressed files.
pub fn serve_dir(site_dir: String, dev_serve: bool) -> (r: ServeDirConfig)
    ensures
        r.dir@ == site_dir@,
        r.precompressed_br == !dev_serve,
        r.precompressed_gzip == !dev_serve,
{
    ServeDirConfig { dir: site_dir, precompressed_br: !dev_serve, precompressed_gzip: !dev_serve }
}

/// The server's TLS certificates, from `letsencrypt`.
#[derive(Debug)]
pub struct Certs {
    pub fullchain: String,
    pub privkey: String,
}

impl Certs {
    /// The certificate files in the directory `base`: the full chain, then the
    /// private key.
    pub fn files(base: &str) -> (r: (String, String))
        ensures
            r.0@ == joined(base@, "fullchain.pem"@),
            r.1@ == joined(base@, "privkey.pem"@),
    {
        (camino_join(base, "fullchain.pem"), camino_join(base, "privkey.pem"))
    }

    /// Where the certificates are: nowhere when `JYD_CERTS` is not set (the
    /// server then speaks plain HTTP), else the files of [`Certs::files`] in
    /// the directory it names, which must be a directory. Then the private
    /// key's metadata must be readable, and both files must canonicalize; the
    /// caller gives those outcomes (the canonical path, or the system's
    /// message), and the first failure is the error.
    pub fn get(
        certs_dir: Option<String>,
        is_dir: bool,
        privkey_metadata: Result<(), String>,
        fullchain_canonical: Result<String, String>,
        privkey_canonical: Result<String, String>,
    ) -> (r: Result<Option<Certs>, ServerError>)
        ensures
            match certs_dir {
                None => r matches Ok(None),
                Some(base) => if !is_dir {
                    r matches Err(ServerError::CertsDirMissing { path }) && path@ == base@
                } else {
                    match (privkey_metadata, fullchain_canonical, privkey_canonical) {
                        (Err(m), _, _) => r matches Err(ServerError::CertFile { message }) && message@ == m@,
                        (Ok(()), Err(m), _) => r matches Err(ServerError::CertFile { message }) && message@
                            == m@,
                        (Ok(()), Ok(_), Err(m)) => r matches Err(ServerError::CertFile { message })
                            && message@ == m@,
                        (Ok(()), Ok(f), Ok(k)) => r matches Ok(Some(c)) && c.fullchain@ == f@
                            && c.privkey@ == k@,
                    }
                },
            },
    {
        match certs_dir {
            None => Ok(None),
            Some(base) => {
                if !is_dir {
                    return Err(ServerError::CertsDirMissing { path: base });
                }
                if let Err(message) = privkey_metadata {
                    return Err(ServerError::CertFile { message });
                }
                let fullchain = match fullchain_canonical {
                    Ok(f) => f,
                    Err(message) => {
                        return Err(ServerError::CertFile { message });
                    },
                };
                let privkey = match privkey_canonical {
                    Ok(k) => k,
                    Err(message) => {
                        return Err(ServerError::CertFile { message });
                    },
                };
                Ok(Some(Certs { fullchain, privkey }))
            },
        }
    }

    pub fn fullchain(&self) -> (r: &str)
        ensures
            r@ == self.fullchain@,
    {
        self.fullchain.as_str()
    }

    pub fn private_key(&self) -> (r: &str)
        ensures
            r@ == self.privkey@,
    {
        self.privkey.as_str()
    }
}

} // verus!
