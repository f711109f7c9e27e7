//! The content security policy the website is served with.

use vstd::prelude::*;
use axum_csp::CspHeaderBuilder;

verus! {

#[verifier::external_type_specification]
#[verifier::external_body]
pub struct ExCspHeaderBuilder(CspHeaderBuilder);

/// The directives the policy sets.
#[derive(Clone, Copy, PartialEq, Eq, Structural, Debug)]
pub enum CspDirectiveType {
    DefaultSrc,
    ConnectSrc,
    FrameSrc,
    ScriptSource,
    ImgSrc,
    StyleSource,
}

/// A source a directive allows.
#[derive(Debug)]
pub enum CspValue {
    /// The site's own origin.
    SelfSite,
    /// A host, a host pattern or a hash.
    Host { value: String },
}

/// The meaning of a [`CspValue`].
pub enum CspSource {
    SelfSite,
    Host(Seq<char>),
}

impl CspValue {
    pub open spec fn source(&self) -> CspSource {
        match self {
            CspValue::SelfSite => CspSource::SelfSite,
            CspValue::Host { value } => CspSource::Host(value@),
        }
    }
}

pub open spec fn host(s: Seq<char>) -> CspSource {
    CspSource::Host(s)
}

/// The policy: Stripe's checkout, scripts and hooks are allowed next to the
/// site itself, and the database's websocket host may be connected to.
pub open spec fn spec_csp_policy(db_wss: Seq<char>) -> Seq<(CspDirectiveType, Seq<CspSource>)> {
    seq![
        (
            CspDirectiveType::DefaultSrc,
            seq![
                CspSource::SelfSite,
                host("https://checkout.stripe.com"@),
                host("https://*.js.stripe.com"@),
                host("https://js.stripe.com"@),
                host("https://hooks.stripe.com"@),
            ],
        ),
        (
            CspDirectiveType::ConnectSrc,
            seq![
                CspSource::SelfSite,
                host(db_wss),
                host("https://checkout.stripe.com"@),
                host("https://api.stripe.com"@),
            ],
        ),
        (
            CspDirectiveType::FrameSrc,
            seq![
                host("https://checkout.stripe.com"@),
                host("https://*.js.stripe.com"@),
                host("https://js.stripe.com"@),
                host("https://hooks.stripe.com"@),
                host("https://connect-js.stripe.com"@),
            ],
        ),
        (
            CspDirectiveType::ScriptSource,
            seq![
                CspSource::SelfSite,
                host("https://checkout.stripe.com"@),
                host("https://js.stripe.com"@),
                host("https://*.js.stripe.com"@),
                host("https://connect-js.stripe.com"@),
            ],
        ),
        (
            CspDirectiveType::ImgSrc,
            seq![
                CspSource::SelfSite,
                host("https://*.stripe.com"@),
                host("https://*.stripe.com"@),
            ],
        ),
        (
            CspDirectiveType::StyleSource,
            seq![
                CspSource::SelfSite,
                host("sha256-0hAheEzaMe6uXIKV4EehS9pu1am1lj/KnnzrOYqckXk="@),
            ],
        ),
    ]
}

impl CspDirectiveType {
    /// The directive's name in the header.
    pub open spec fn spec_name(self) -> Seq<char> {
        match self {
            CspDirectiveType::DefaultSrc => "default-src"@,
            CspDirectiveType::ConnectSrc => "connect-src"@,
            CspDirectiveType::FrameSrc => "frame-src"@,
            CspDirectiveType::ScriptSource => "script-src"@,
            CspDirectiveType::ImgSrc => "img-src"@,
            CspDirectiveType::StyleSource => "style-src"@,
        }
    }
}

/// A source as axum-csp's `CspValue` holds it: the position of its variant
/// in that enum's declaration, and its text.
pub open spec fn source_key(s: CspSource) -> (nat, Seq<char>) {
    match s {
        CspSource::SelfSite => (1, Seq::empty()),
        CspSource::Host(v) => (9, v),
    }
}

pub open spec fn source_keys(v: Seq<CspSource>) -> Seq<(nat, Seq<char>)> {
    v.map_values(|s: CspSource| source_key(s))
}

pub open spec fn value_sources(v: Seq<CspValue>) -> Seq<CspSource> {
    v.map_values(|x: CspValue| x.source())
}

/// What a header builder holds: for each directive's name, its sources in
/// the order they were first added.
pub uninterp spec fn csp_builder_contents(b: CspHeaderBuilder) -> Map<Seq<char>, Seq<(nat, Seq<char>)>>;

/// The header text axum-csp's `finish` writes for a builder's contents.
pub uninterp spec fn csp_header_text(contents: Map<Seq<char>, Seq<(nat, Seq<char>)>>) -> Seq<char>;

/// `existing` followed by each of `values` that is not already there, in order.
pub open spec fn added(existing: Seq<(nat, Seq<char>)>, values: Seq<(nat, Seq<char>)>) -> Seq<(nat, Seq<char>)>
    decreases values.len(),
{
    if values.len() == 0 {
        existing
    } else {
        let before = added(existing, values.drop_last());
        if before.contains(values.last()) {
            before
        } else {
            before.push(values.last())
        }
    }
}

/// The contents after `add(directive, values)`.
pub open spec fn add_spec(
    m: Map<Seq<char>, Seq<(nat, Seq<char>)>>,
    directive: CspDirectiveType,
    values: Seq<CspSource>,
) -> Map<Seq<char>, Seq<(nat, Seq<char>)>> {
    let name = directive.spec_name();
    let existing = if m.contains_key(name) {
        m[name]
    } else {
        Seq::empty()
    };
    m.insert(name, added(existing, source_keys(values)))
}

/// The contents after adding each entry in turn.
pub open spec fn fold_adds(
    m: Map<Seq<char>, Seq<(nat, Seq<char>)>>,
    entries: Seq<(CspDirectiveType, Seq<CspSource>)>,
) -> Map<Seq<char>, Seq<(nat, Seq<char>)>>
    decreases entries.len(),
{
    if entries.len() == 0 {
        m
    } else {
        add_spec(fold_adds(m, entries.drop_last()), entries.last().0, entries.last().1)
    }
}

/// A builder with no directives.
pub open spec fn no_contents() -> Map<Seq<char>, Seq<(nat, Seq<char>)>> {
    Map::empty()
}

/// The contents of the policy's builder.
pub open spec fn policy_contents(db_wss: Seq<char>) -> Map<Seq<char>, Seq<(nat, Seq<char>)>> {
    fold_adds(Map::empty(), spec_csp_policy(db_wss))
}

/// Calls `CspHeaderBuilder::new`: a builder with no directives.
#[verifier::external_body]
fn builder_new() -> (r: CspHeaderBuilder)
    ensures
        csp_builder_contents(r) == no_contents(),
{
    CspHeaderBuilder::new()
}

/// Calls `CspHeaderBuilder::add`, which makes sure the directive has an entry
/// and appends to it each value that it does not hold yet, in order.
#[verifier::external_body]
fn builder_add(b: CspHeaderBuilder, directive: CspDirectiveType, values: Vec<CspValue>) -> (r: CspHeaderBuilder)
    ensures
        csp_builder_contents(r) == add_spec(csp_builder_contents(b), directive, value_sources(values@)),
{
    let d = match directive {
        CspDirectiveType::DefaultSrc => axum_csp::CspDirectiveType::DefaultSrc,
        CspDirectiveType::ConnectSrc => axum_csp::CspDirectiveType::ConnectSrc,
        CspDirectiveType::FrameSrc => axum_csp::CspDirectiveType::FrameSrc,
        CspDirectiveType::ScriptSource => axum_csp::CspDirectiveType::ScriptSource,
        CspDirectiveType::ImgSrc => axum_csp::CspDirectiveType::ImgSrc,
        CspDirectiveType::StyleSource => axum_csp::CspDirectiveType::StyleSource,
    };
    let v = values.into_iter().map(|x| match x {
        CspValue::SelfSite => axum_csp::CspValue::SelfSite,
        CspValue::Host { value } => axum_csp::CspValue::Host { value },
    }).collect();
    b.add(d, v)
}

/// A character that an HTTP header value may hold as it is.
pub open spec fn header_char_ok(c: char) -> bool {
    (c as int >= 32 && c as int != 127) || c == '\t'
}

/// Every source text in the contents is fit for a header value.
pub open spec fn header_safe(contents: Map<Seq<char>, Seq<(nat, Seq<char>)>>) -> bool {
    forall|k: Seq<char>, i: int, j: int|
        #![trigger contents[k][i].1[j]]
        contents.contains_key(k) && 0 <= i < contents[k].len() && 0 <= j < contents[k][i].1.len()
            ==> header_char_ok(contents[k][i].1[j])
}

/// Calls `CspHeaderBuilder::finish` and reads the header value back as text.
/// `finish` sorts the directives and their values, so its text depends on the
/// contents alone; it panics on text that a header value cannot hold, which
/// `requires` leaves out.
#[verifier::external_body]
fn builder_finish(b: CspHeaderBuilder) -> (r: String)
    requires
        header_safe(csp_builder_contents(b)),
    ensures
        r@ == csp_header_text(csp_builder_contents(b)),
{
    String::from_utf8_lossy(b.finish().as_bytes()).into_owned()
}

fn host_value(h: &str) -> (r: CspValue)
    ensures
        r.source() == host(h@),
{
    CspValue::Host { value: h.to_owned() }
}

fn add_directive(
    b: CspHeaderBuilder,
    directive: CspDirectiveType,
    values: Vec<CspValue>,
    Ghost(done): Ghost<Seq<(CspDirectiveType, Seq<CspSource>)>>,
) -> (r: CspHeaderBuilder)
    requires
        csp_builder_contents(b) == fold_adds(Map::empty(), done),
    ensures
        csp_builder_contents(r) == fold_adds(Map::empty(), done.push((directive, value_sources(values@)))),
{
    let ghost entry = (directive, value_sources(values@));
    let r = builder_add(b, directive, values);
    assert(done.push(entry).drop_last() =~= done);
    r
}

/// Builds the policy's header builder; `db_wss` is the websocket address of
/// the database.
pub fn csp_policy(db_wss: &str) -> (r: CspHeaderBuilder)
    ensures
        csp_builder_contents(r) == policy_contents(db_wss@),
{
    let b = builder_new();
    let ghost done = Seq::<(CspDirectiveType, Seq<CspSource>)>::empty();
    assert(fold_adds(Map::empty(), done) == Map::<Seq<char>, Seq<(nat, Seq<char>)>>::empty());

    let v = vec![
        CspValue::SelfSite,
        host_value("https://checkout.stripe.com"),
        host_value("https://*.js.stripe.com"),
        host_value("https://js.stripe.com"),
        host_value("https://hooks.stripe.com"),
    ];
    assert(value_sources(v@) =~= seq![CspSource::SelfSite, host("https://checkout.stripe.com"@), host("https://*.js.stripe.com"@), host("https://js.stripe.com"@), host("https://hooks.stripe.com"@)]);
    let ghost e = (CspDirectiveType::DefaultSrc, value_sources(v@));
    let b = add_directive(b, CspDirectiveType::DefaultSrc, v, Ghost(done));
    let ghost done = done.push(e);

    let v = vec![
        CspValue::SelfSite,
        host_value(db_wss),
        host_value("https://checkout.stripe.com"),
        host_value("https://api.stripe.com"),
    ];
    assert(value_sources(v@) =~= seq![CspSource::SelfSite, host(db_wss@), host("https://checkout.stripe.com"@), host("https://api.stripe.com"@)]);
    let ghost e = (CspDirectiveType::ConnectSrc, value_sources(v@));
    let b = add_directive(b, CspDirectiveType::ConnectSrc, v, Ghost(done));
    let ghost done = done.push(e);

    let v = vec![
        host_value("https://checkout.stripe.com"),
        host_value("https://*.js.stripe.com"),
        host_value("https://js.stripe.com"),
        host_value("https://hooks.stripe.com"),
        host_value("https://connect-js.stripe.com"),
    ];
    assert(value_sources(v@) =~= seq![host("https://checkout.stripe.com"@), host("https://*.js.stripe.com"@), host("https://js.stripe.com"@), host("https://hooks.stripe.com"@), host("https://connect-js.stripe.com"@)]);
    let ghost e = (CspDirectiveType::FrameSrc, value_sources(v@));
    let b = add_directive(b, CspDirectiveType::FrameSrc, v, Ghost(done));
    let ghost done = done.push(e);

    let v = vec![
        CspValue::SelfSite,
        host_value("https://checkout.stripe.com"),
        host_value("https://js.stripe.com"),
        host_value("https://*.js.stripe.com"),
        host_value("https://connect-js.stripe.com"),
    ];
    assert(value_sources(v@) =~= seq![CspSource::SelfSite, host("https://checkout.stripe.com"@), host("https://js.stripe.com"@), host("https://*.js.stripe.com"@), host("https://connect-js.stripe.com"@)]);
    let ghost e = (CspDirectiveType::ScriptSource, value_sources(v@));
    let b = add_directive(b, CspDirectiveType::ScriptSource, v, Ghost(done));
    let ghost done = done.push(e);

    let v = vec![
        CspValue::SelfSite,
        host_value("https://*.stripe.com"),
        host_value("https://*.stripe.com"),
    ];
    assert(value_sources(v@) =~= seq![CspSource::SelfSite, host("https://*.stripe.com"@), host("https://*.stripe.com"@)]);
    let ghost e = (CspDirectiveType::ImgSrc, value_sources(v@));
    let b = add_directive(b, CspDirectiveType::ImgSrc, v, Ghost(done));
    let ghost done = done.push(e);

    let v = vec![CspValue::SelfSite, host_value("sha256-0hAheEzaMe6uXIKV4EehS9pu1am1lj/KnnzrOYqckXk=")];
    assert(value_sources(v@) =~= seq![CspSource::SelfSite, host("sha256-0hAheEzaMe6uXIKV4EehS9pu1am1lj/KnnzrOYqckXk="@)]);
    let ghost e = (CspDirectiveType::StyleSource, value_sources(v@));
    let b = add_directive(b, CspDirectiveType::StyleSource, v, Ghost(done));
    let ghost done = done.push(e);

    assert(done =~= spec_csp_policy(db_wss@));
    b
}

/// Every character of the text is fit for a header value.
pub open spec fn text_safe(t: Seq<char>) -> bool {
    forall|j: int| 0 <= j < t.len() ==> header_char_ok(#[trigger] t[j])
}

/// Every source text in the list is fit for a header value.
pub open spec fn sources_safe(v: Seq<(nat, Seq<char>)>) -> bool {
    forall|i: int| 0 <= i < v.len() ==> text_safe(#[trigger] v[i].1)
}

proof fn lemma_added_safe(existing: Seq<(nat, Seq<char>)>, values: Seq<(nat, Seq<char>)>)
    requires
        sources_safe(existing),
        sources_safe(values),
    ensures
        sources_safe(added(existing, values)),
    decreases values.len(),
{
    if values.len() > 0 {
        assert(sources_safe(values.drop_last())) by {
            assert forall|i: int| 0 <= i < values.drop_last().len() implies text_safe(
                #[trigger] values.drop_last()[i].1,
            ) by {
                assert(values.drop_last()[i] == values[i]);
            }
        }
        lemma_added_safe(existing, values.drop_last());
        assert(text_safe(values[values.len() - 1].1));
    }
}

proof fn lemma_fold_safe(m: Map<Seq<char>, Seq<(nat, Seq<char>)>>, entries: Seq<(CspDirectiveType, Seq<CspSource>)>)
    requires
        forall|k: Seq<char>| m.contains_key(k) ==> sources_safe(#[trigger] m[k]),
        forall|e: int| 0 <= e < entries.len() ==> sources_safe(source_keys(#[trigger] entries[e].1)),
    ensures
        forall|k: Seq<char>| #![trigger fold_adds(m, entries)[k]]
            fold_adds(m, entries).contains_key(k) ==> sources_safe(fold_adds(m, entries)[k]),
    decreases entries.len(),
{
    if entries.len() > 0 {
        let prev = entries.drop_last();
        assert forall|e: int| 0 <= e < prev.len() implies sources_safe(source_keys(#[trigger] prev[e].1)) by {
            assert(prev[e] == entries[e]);
        }
        lemma_fold_safe(m, prev);
        let before = fold_adds(m, prev);
        let (d, vals) = entries.last();
        let name = d.spec_name();
        let existing = if before.contains_key(name) {
            before[name]
        } else {
            Seq::empty()
        };
        assert(sources_safe(existing));
        assert(sources_safe(source_keys(entries[entries.len() - 1].1)));
        lemma_added_safe(existing, source_keys(vals));
    }
}

/// A list's every source text being safe makes the header safe.
proof fn lemma_header_safe(contents: Map<Seq<char>, Seq<(nat, Seq<char>)>>)
    requires
        forall|k: Seq<char>| contents.contains_key(k) ==> sources_safe(#[trigger] contents[k]),
    ensures
        header_safe(contents),
{
    assert forall|k: Seq<char>, i: int, j: int|
        contents.contains_key(k) && 0 <= i < contents[k].len() && 0 <= j < contents[k][i].1.len()
        implies header_char_ok(#[trigger] contents[k][i].1[j]) by {
        assert(sources_safe(contents[k]));
        assert(text_safe(contents[k][i].1));
    }
}

/// The policy's own sources are fit for a header value, and so is the
/// database's address when its characters are.
proof fn lemma_policy_header_safe(db_wss: Seq<char>)
    requires
        text_safe(db_wss),
    ensures
        header_safe(policy_contents(db_wss)),
{
    reveal_strlit("https://checkout.stripe.com");
    reveal_strlit("https://*.js.stripe.com");
    reveal_strlit("https://js.stripe.com");
    reveal_strlit("https://hooks.stripe.com");
    reveal_strlit("https://api.stripe.com");
    reveal_strlit("https://connect-js.stripe.com");
    reveal_strlit("https://*.stripe.com");
    reveal_strlit("sha256-0hAheEzaMe6uXIKV4EehS9pu1am1lj/KnnzrOYqckXk=");
    let p = spec_csp_policy(db_wss);
    assert(text_safe(Seq::<char>::empty()));
    assert forall|e: int| 0 <= e < p.len() implies sources_safe(source_keys(#[trigger] p[e].1)) by {
        let ks = source_keys(p[e].1);
        assert forall|i: int| 0 <= i < ks.len() implies text_safe(#[trigger] ks[i].1) by {
            assert(ks[i] == source_key(p[e].1[i]));
        }
    }
    lemma_fold_safe(Map::empty(), p);
    lemma_header_safe(policy_contents(db_wss));
}

/// The header the website's responses carry: the policy, only reported and not
/// enforced. A database address with control characters is left out, as the
/// header could not hold it.
pub fn csp_headers(db_wss: &str) -> (r: (String, String))
    requires
        text_safe(db_wss@),
    ensures
        r.0@ == "content-security-policy-report-only"@,
        r.1@ == csp_header_text(policy_contents(db_wss@)),
{
    let policy = csp_policy(db_wss);
    proof {
        lemma_policy_header_safe(db_wss@);
    }
    let value = builder_finish(policy);
    ("content-security-policy-report-only".to_owned(), value)
}

/// No source appears twice in the list.
pub open spec fn no_dups(v: Seq<(nat, Seq<char>)>) -> bool {
    forall|i: int, j: int| 0 <= i < j < v.len() ==> v[i] != v[j]
}

proof fn lemma_added_no_dups(existing: Seq<(nat, Seq<char>)>, values: Seq<(nat, Seq<char>)>)
    requires
        no_dups(existing),
    ensures
        no_dups(added(existing, values)),
    decreases values.len(),
{
    if values.len() > 0 {
        lemma_added_no_dups(existing, values.drop_last());
    }
}

proof fn lemma_fold_no_dups(m: Map<Seq<char>, Seq<(nat, Seq<char>)>>, entries: Seq<(CspDirectiveType, Seq<CspSource>)>)
    requires
        forall|k: Seq<char>| m.contains_key(k) ==> no_dups(#[trigger] m[k]),
    ensures
        forall|k: Seq<char>| #![trigger fold_adds(m, entries)[k]]
            fold_adds(m, entries).contains_key(k) ==> no_dups(fold_adds(m, entries)[k]),
    decreases entries.len(),
{
    if entries.len() > 0 {
        lemma_fold_no_dups(m, entries.drop_last());
        let before = fold_adds(m, entries.drop_last());
        let name = entries.last().0.spec_name();
        let existing = if before.contains_key(name) {
            before[name]
        } else {
            Seq::empty()
        };
        lemma_added_no_dups(existing, source_keys(entries.last().1));
    }
}

/// `add` never lists a source twice under one directive, so the policy's
/// header names each of a directive's sources once, though the policy adds
/// `https://*.stripe.com` twice to `img-src`; and every source added to a
/// directive is listed under it.
pub proof fn lemma_policy_sources_listed_once(db_wss: Seq<char>)
    ensures
        forall|k: Seq<char>| #![trigger policy_contents(db_wss)[k]]
            policy_contents(db_wss).contains_key(k) ==> no_dups(policy_contents(db_wss)[k]),
        forall|m: Map<Seq<char>, Seq<(nat, Seq<char>)>>, d: CspDirectiveType, v: Seq<CspSource>, i: int|
            0 <= i < v.len() ==> #[trigger] add_spec(m, d, v)[d.spec_name()].contains(source_key(v[i])),
{
    lemma_fold_no_dups(Map::empty(), spec_csp_policy(db_wss));
    assert forall|m: Map<Seq<char>, Seq<(nat, Seq<char>)>>, d: CspDirectiveType, v: Seq<CspSource>, i: int|
        0 <= i < v.len() implies #[trigger] add_spec(m, d, v)[d.spec_name()].contains(source_key(v[i])) by {
        let name = d.spec_name();
        let existing = if m.contains_key(name) {
            m[name]
        } else {
            Seq::empty()
        };
        let ks = source_keys(v);
        assert(ks[i] == source_key(v[i]));
        lemma_added_contains(existing, ks, i);
    }
}

proof fn lemma_added_contains(existing: Seq<(nat, Seq<char>)>, values: Seq<(nat, Seq<char>)>, i: int)
    requires
        0 <= i < values.len(),
    ensures
        added(existing, values).contains(values[i]),
    decreases values.len(),
{
    let prev = values.drop_last();
    let before = added(existing, prev);
    if i < values.len() - 1 {
        lemma_added_contains(existing, prev, i);
        assert(prev[i] == values[i]);
        if !before.contains(values.last()) {
            let t = choose|t: int| 0 <= t < before.len() && before[t] == values[i];
            assert(before.push(values.last())[t] == values[i]);
        }
    } else {
        if !before.contains(values.last()) {
            assert(before.push(values.last())[before.len() as int] == values.last());
        }
    }
}

} // verus!
