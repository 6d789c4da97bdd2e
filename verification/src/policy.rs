use crate::outside::{
    is_alphanumeric, lowercase, parse_host, unicode_alphanumeric, unicode_lowercase,
    unicode_uppercase, uppercase, url_host,
};
use crate::text::{
    contains_text, find_from, find_last, first_index_of, has_prefix, join2, join3, last_index_of,
    occurs_in, split, split_on, starts_with, str_contains, str_starts_with, string_of, text_of,
    texts, to_chars, trim, trimmed,
};
use vstd::prelude::*;

verus! {

/// Why a text is no domain name.
#[derive(Debug, Clone, Copy, PartialEq, Eq, Structural)]
pub enum DomainError {
    /// Nothing is left once scheme and path are taken off.
    Empty,
    /// The name has no dot.
    InvalidFormat,
    /// The name holds a character that is no letter, digit, dot or hyphen.
    InvalidCharacters,
}

impl DomainError {
    /// The message for this error.
    pub fn message(&self) -> (text: String)
        ensures
            text@ == match self {
                DomainError::Empty => "Empty domain"@,
                DomainError::InvalidFormat => "Invalid domain format"@,
                DomainError::InvalidCharacters => "Invalid characters in domain"@,
            },
    {
        match self {
            DomainError::Empty => String::from_str("Empty domain"),
            DomainError::InvalidFormat => String::from_str("Invalid domain format"),
            DomainError::InvalidCharacters => String::from_str("Invalid characters in domain"),
        }
    }
}

/// `s` without a leading `http://` or, failing that, `https://`.
pub open spec fn without_scheme(s: Seq<char>) -> Seq<char> {
    if has_prefix(s, "http://"@) {
        s.skip("http://"@.len() as int)
    } else if has_prefix(s, "https://"@) {
        s.skip("https://"@.len() as int)
    } else {
        s
    }
}

/// `s` up to its first slash.
pub open spec fn before_slash(s: Seq<char>) -> Seq<char> {
    s.take(first_index_of(s, '/'))
}

/// The host part of an address: the address without scheme and path.
pub open spec fn bare_domain(address: Seq<char>) -> Seq<char> {
    before_slash(without_scheme(address))
}

/// Whether a character may stand in a domain name.
pub open spec fn domain_char(c: char) -> bool {
    unicode_alphanumeric(c) || c == '.' || c == '-'
}

/// Whether every character of `name` may stand in a domain name.
pub open spec fn domain_chars(name: Seq<char>) -> bool {
    forall|i: int| 0 <= i < name.len() ==> domain_char(#[trigger] name[i])
}

/// The verdict on a bare name: it must not be empty, must hold a dot, and
/// must hold nothing but letters, digits, dots and hyphens.
pub open spec fn checked_domain(name: Seq<char>) -> Result<Seq<char>, DomainError> {
    if name.len() == 0 {
        Err(DomainError::Empty)
    } else if !name.contains('.') {
        Err(DomainError::InvalidFormat)
    } else if !domain_chars(name) {
        Err(DomainError::InvalidCharacters)
    } else {
        Ok(name)
    }
}

/// The verdict on a text as a domain: whitespace around it, a scheme and a
/// path are taken off, and what is left is checked.
pub open spec fn validated_domain(domain: Seq<char>) -> Result<Seq<char>, DomainError> {
    checked_domain(bare_domain(trimmed(domain)))
}

/// Takes scheme and path off an address.
pub fn strip_address(address: &str) -> (name: String)
    ensures
        name@ == bare_domain(address@),
{
    let chars = to_chars(address);
    let http = to_chars("http://");
    let https = to_chars("https://");
    let from: usize = if starts_with(&chars, &http) {
        http.len()
    } else if starts_with(&chars, &https) {
        https.len()
    } else {
        0
    };
    let end = find_from(&chars, '/', from);
    proof {
        let rest = chars@.skip(from as int);
        assert(from == 0 ==> rest =~= chars@);
        assert(rest.take(end - from) =~= chars@.subrange(from as int, end as int));
    }
    string_of(&chars, from, end)
}

/// Checks a bare name.
pub fn check_domain(name: &str) -> (r: Result<String, DomainError>)
    ensures
        match r {
            Ok(d) => checked_domain(name@) == Ok::<Seq<char>, DomainError>(d@),
            Err(e) => checked_domain(name@) == Err::<Seq<char>, DomainError>(e),
        },
{
    let chars = to_chars(name);
    if chars.len() == 0 {
        return Err(DomainError::Empty);
    }
    let dot = find_from(&chars, '.', 0);
    proof {
        assert(chars@.skip(0) =~= chars@);
        crate::text::lemma_first_index_bounds(chars@, '.');
    }
    if dot == chars.len() {
        return Err(DomainError::InvalidFormat);
    }
    assert(chars@[dot as int] == '.');
    let mut i: usize = 0;
    while i < chars.len()
        invariant
            i <= chars.len(),
            chars@ == name@,
            chars@.len() > 0,
            chars@.contains('.'),
            forall|j: int| 0 <= j < i ==> domain_char(#[trigger] chars@[j]),
        decreases chars.len() - i,
    {
        let c = chars[i];
        if !(is_alphanumeric(c) || c == '.' || c == '-') {
            assert(!domain_char(chars@[i as int]));
            return Err(DomainError::InvalidCharacters);
        }
        i += 1;
    }
    assert(chars@.subrange(0, chars@.len() as int) =~= chars@);
    Ok(string_of(&chars, 0, chars.len()))
}

/// Reads a domain name out of a text: whitespace around it, a scheme and a
/// path are taken off, and what is left must be a name with a dot, made of
/// letters, digits, dots and hyphens.
pub fn validate_domain(domain: &str) -> (r: Result<String, DomainError>)
    ensures
        match r {
            Ok(d) => validated_domain(domain@) == Ok::<Seq<char>, DomainError>(d@),
            Err(e) => validated_domain(domain@) == Err::<Seq<char>, DomainError>(e),
        },
{
    let address = trim(domain);
    let name = strip_address(address.as_str());
    check_domain(name.as_str())
}

/// A domain without its last label: the part before its last dot, or the
/// whole of it where it has no dot.
pub open spec fn domain_name(base: Seq<char>) -> Seq<char> {
    if last_index_of(base, '.') >= 0 {
        base.take(last_index_of(base, '.'))
    } else {
        base
    }
}

/// The top-level domain of a region, given the region's name in uppercase
/// and in lowercase: the known regions have their own, any other region
/// stands for itself.
pub open spec fn region_tld(upper: Seq<char>, lower: Seq<char>) -> Seq<char> {
    if upper == "ES"@ {
        "es"@
    } else if upper == "US"@ {
        "us"@
    } else if upper == "UK"@ {
        "uk"@
    } else if upper == "FR"@ {
        "fr"@
    } else if upper == "DE"@ {
        "de"@
    } else if upper == "IT"@ {
        "it"@
    } else {
        lower
    }
}

/// The four variations that every name gets.
pub open spec fn common_variations(name: Seq<char>) -> Seq<Seq<char>> {
    seq![name + ".com"@, name + ".net"@, name + ".org"@, name + ".io"@]
}

/// The variations of a name for a region's top-level domain: the four
/// common ones, the regional one unless it is among them, then `.co` and
/// `.co.` with the regional one.
pub open spec fn tld_variations(name: Seq<char>, tld: Seq<char>) -> Seq<Seq<char>> {
    let common = common_variations(name);
    let regional = name + "."@ + tld;
    let with_regional = if common.contains(regional) {
        common
    } else {
        common.push(regional)
    };
    with_regional.push(name + ".co"@).push(name + ".co."@ + tld)
}

/// Takes the last label off a domain.
pub fn strip_tld(base_domain: &str) -> (name: String)
    ensures
        name@ == domain_name(base_domain@),
{
    let chars = to_chars(base_domain);
    match find_last(&chars, '.') {
        Some(k) => string_of(&chars, 0, k),
        None => {
            assert(chars@.subrange(0, chars@.len() as int) =~= chars@);
            string_of(&chars, 0, chars.len())
        },
    }
}

/// Picks the top-level domain of a region from the region's name in
/// uppercase and in lowercase.
pub fn pick_region_tld(upper: &str, lower: String) -> (tld: String)
    ensures
        tld@ == region_tld(upper@, lower@),
{
    let up = String::from_str(upper);
    if up == String::from_str("ES") {
        String::from_str("es")
    } else if up == String::from_str("US") {
        String::from_str("us")
    } else if up == String::from_str("UK") {
        String::from_str("uk")
    } else if up == String::from_str("FR") {
        String::from_str("fr")
    } else if up == String::from_str("DE") {
        String::from_str("de")
    } else if up == String::from_str("IT") {
        String::from_str("it")
    } else {
        lower
    }
}

/// The variations of `name` for the top-level domain `tld`.
pub fn variations_for(name: &str, tld: &str) -> (variations: Vec<String>)
    ensures
        texts(variations@) == tld_variations(name@, tld@),
{
    let mut variations: Vec<String> = Vec::new();
    variations.push(join2(name, ".com"));
    variations.push(join2(name, ".net"));
    variations.push(join2(name, ".org"));
    variations.push(join2(name, ".io"));
    assert(texts(variations@) =~= common_variations(name@));
    let regional = join3(name, ".", tld);
    if !contains_text(&variations, &regional) {
        let ghost before = variations@;
        variations.push(regional);
        assert(texts(variations@) =~= texts(before).push(name@ + "."@ + tld@));
    }
    let ghost middle = variations@;
    variations.push(join2(name, ".co"));
    variations.push(join3(name, ".co.", tld));
    assert(texts(variations@) =~= texts(middle).push(name@ + ".co"@).push(name@ + ".co."@ + tld@));
    variations
}

/// The variations of a domain for a region: its name without the last
/// label, under the common top-level domains, the region's own, `.co`, and
/// `.co.` with the region's own.
pub fn generate_tld_variations(base_domain: &str, region: &str) -> (variations: Vec<String>)
    ensures
        texts(variations@) == tld_variations(
            domain_name(base_domain@),
            region_tld(unicode_uppercase(region@), unicode_lowercase(region@)),
        ),
{
    let name = strip_tld(base_domain);
    let lower = lowercase(region);
    let upper = uppercase(region);
    let tld = pick_region_tld(upper.as_str(), lower);
    variations_for(name.as_str(), tld.as_str())
}

/// The name under which this crawler introduces itself.
pub fn user_agent() -> (agent: &'static str)
    ensures
        agent@
            == "JARVIX-Bot/1.0 (Intelligence Discovery; +https://github.com/Rigohl/JARVIX-MULTISTACK)"@,
{
    "JARVIX-Bot/1.0 (Intelligence Discovery; +https://github.com/Rigohl/JARVIX-MULTISTACK)"
}

/// The second of the pieces of a line between its colons, empty where the
/// line has no colon.
pub open spec fn field(line: Seq<char>) -> Seq<char> {
    let k = first_index_of(line, ':');
    if 0 <= k < line.len() {
        let rest = line.skip(k + 1);
        rest.take(first_index_of(rest, ':'))
    } else {
        Seq::empty()
    }
}

/// What a line of a robots file is about, told from its lowercase form.
#[derive(Debug, Clone, Copy, PartialEq, Eq, Structural)]
pub enum RobotsRule {
    UserAgent,
    Disallow,
    Other,
}

/// What a line is about, given its lowercase form.
pub open spec fn rule_of(lowered: Seq<char>) -> RobotsRule {
    if has_prefix(lowered, "user-agent:"@) {
        RobotsRule::UserAgent
    } else if has_prefix(lowered, "disallow:"@) {
        RobotsRule::Disallow
    } else {
        RobotsRule::Other
    }
}

/// Whether a section for `agent` applies to a crawler whose name in
/// lowercase is `crawler`: it is for everyone, it names this project, or the
/// crawler's name holds it.
pub open spec fn section_applies(agent: Seq<char>, crawler: Seq<char>) -> bool {
    agent == "*"@ || occurs_in(agent, "jarvix"@) || occurs_in(crawler, agent)
}

/// Whether the lines of a robots file, from a point where the current
/// section applies or not, leave the root open to a crawler. Each line is
/// trimmed; empty lines and comments are passed over; a `User-agent` line
/// opens a section; a `Disallow: /` in a section that applies closes the
/// root.
pub open spec fn robots_allow(lines: Seq<Seq<char>>, relevant: bool, crawler: Seq<char>) -> bool
    decreases lines.len(),
{
    if lines.len() == 0 {
        true
    } else {
        let line = trimmed(lines[0]);
        let rest = lines.drop_first();
        if line.len() == 0 || line[0] == '#' {
            robots_allow(rest, relevant, crawler)
        } else {
            match rule_of(unicode_lowercase(line)) {
                RobotsRule::UserAgent => robots_allow(
                    rest,
                    section_applies(unicode_lowercase(trimmed(field(line))), crawler),
                    crawler,
                ),
                RobotsRule::Disallow => if relevant && trimmed(field(line)) == "/"@ {
                    false
                } else {
                    robots_allow(rest, relevant, crawler)
                },
                RobotsRule::Other => robots_allow(rest, relevant, crawler),
            }
        }
    }
}

/// Cuts the field out of a line.
pub fn field_of(line: &str) -> (value: String)
    ensures
        value@ == field(line@),
{
    let chars = to_chars(line);
    let k = find_from(&chars, ':', 0);
    assert(chars@.skip(0) =~= chars@);
    if k < chars.len() {
        let end = find_from(&chars, ':', k + 1);
        assert(chars@.skip(k + 1).take(end - (k + 1)) =~= chars@.subrange(k + 1, end as int));
        string_of(&chars, k + 1, end)
    } else {
        String::new()
    }
}

/// Tells what a line is about from its lowercase form.
pub fn classify_rule(lowered: &str) -> (rule: RobotsRule)
    ensures
        rule == rule_of(lowered@),
{
    if str_starts_with(lowered, "user-agent:") {
        RobotsRule::UserAgent
    } else if str_starts_with(lowered, "disallow:") {
        RobotsRule::Disallow
    } else {
        RobotsRule::Other
    }
}

/// Tests whether a section for `agent` applies to the crawler whose name in
/// lowercase is `crawler`.
pub fn applies_to(agent: &str, crawler: &str) -> (r: bool)
    ensures
        r == section_applies(agent@, crawler@),
{
    let star = String::from_str("*");
    String::from_str(agent) == star || str_contains(agent, "jarvix") || str_contains(
        crawler,
        agent,
    )
}

/// Tests whether a robots file leaves the root of a site open to the
/// crawler named `user_agent`.
pub fn is_allowed_by_robots(robots_txt: &str, user_agent: &str) -> (allowed: bool)
    ensures
        allowed == robots_allow(split(robots_txt@, '\n'), false, unicode_lowercase(user_agent@)),
{
    let crawler = lowercase(user_agent);
    let lines = split_on(robots_txt, '\n');
    let slash = String::from_str("/");
    let mut relevant = false;
    let mut i: usize = 0;
    assert(texts(lines@).skip(0) =~= texts(lines@));
    while i < lines.len()
        invariant
            i <= lines.len(),
            texts(lines@) == split(robots_txt@, '\n'),
            crawler@ == unicode_lowercase(user_agent@),
            slash@ == "/"@,
            robots_allow(split(robots_txt@, '\n'), false, crawler@) == robots_allow(
                texts(lines@).skip(i as int),
                relevant,
                crawler@,
            ),
        decreases lines.len() - i,
    {
        let ghost rest = texts(lines@).skip(i as int);
        assert(rest[0] == lines@[i as int]@);
        assert(rest.drop_first() =~= texts(lines@).skip(i + 1));
        let line = trim(lines[i].as_str());
        let chars = to_chars(line.as_str());
        if chars.len() > 0 && chars[0] != '#' {
            let lowered = lowercase(line.as_str());
            match classify_rule(lowered.as_str()) {
                RobotsRule::UserAgent => {
                    let value = field_of(line.as_str());
                    let agent = lowercase(trim(value.as_str()).as_str());
                    relevant = applies_to(agent.as_str(), crawler.as_str());
                },
                RobotsRule::Disallow => {
                    if relevant {
                        let value = field_of(line.as_str());
                        let path = trim(value.as_str());
                        if path == slash {
                            return false;
                        }
                    }
                },
                RobotsRule::Other => {},
            }
        }
        i += 1;
    }
    true
}

/// The verdict on a site from what a fetch of its robots file brought back:
/// the file decides where there is one; a site without one, or one that
/// could not be asked, counts as open.
pub fn robots_permit(robots_txt: &Option<String>) -> (allowed: bool)
    ensures
        allowed == match robots_txt {
            Some(text) => robots_allow(
                split(text@, '\n'),
                false,
                unicode_lowercase(
                    "JARVIX-Bot/1.0 (Intelligence Discovery; +https://github.com/Rigohl/JARVIX-MULTISTACK)"@,
                ),
            ),
            None => true,
        },
{
    match robots_txt {
        Some(text) => is_allowed_by_robots(text.as_str(), user_agent()),
        None => true,
    }
}

/// An address with a scheme: the address itself where it begins with
/// `http://` or `https://`, else `https://` before it.
pub open spec fn with_scheme(domain: Seq<char>) -> Seq<char> {
    if has_prefix(domain, "http://"@) || has_prefix(domain, "https://"@) {
        domain
    } else {
        "https://"@ + domain
    }
}

/// Puts `https://` before an address that has no scheme.
pub fn ensure_scheme(domain: &str) -> (url: String)
    ensures
        url@ == with_scheme(domain@),
{
    if str_starts_with(domain, "http://") || str_starts_with(domain, "https://") {
        String::from_str(domain)
    } else {
        join2("https://", domain)
    }
}

/// The address of the robots file of a host under a scheme.
pub fn robots_url(scheme: &str, host: &str) -> (url: String)
    ensures
        url@ == scheme@ + "://"@ + host@ + "/robots.txt"@,
{
    let mut url = join3(scheme, "://", host);
    url.append("/robots.txt");
    url
}

/// The scheme of an address that `with_scheme` gave: `http` where it begins
/// with `http://`, else `https`.
pub open spec fn scheme_of(url: Seq<char>) -> Seq<char> {
    if has_prefix(url, "http://"@) {
        "http"@
    } else {
        "https"@
    }
}

/// The address of the robots file for a domain or an address, given the
/// host read out of it: nothing where no host could be read.
pub open spec fn robots_address_for(domain: Seq<char>, host: Option<Seq<char>>) -> Option<
    Seq<char>,
> {
    match host {
        Some(h) => Some(scheme_of(with_scheme(domain)) + "://"@ + h + "/robots.txt"@),
        None => None,
    }
}

/// The address of the robots file for a domain or an address: the scheme
/// it has, or `https`, then the host that is read out of it. There is none
/// where the text with its scheme is no URL with a host.
pub fn robots_address(domain: &str) -> (address: Option<String>)
    ensures
        text_of(address) == robots_address_for(domain@, url_host(with_scheme(domain@))),
{
    let url = ensure_scheme(domain);
    let scheme = if str_starts_with(url.as_str(), "http://") {
        "http"
    } else {
        "https"
    };
    match parse_host(url.as_str()) {
        Some(host) => Some(robots_url(scheme, host.as_str())),
        None => None,
    }
}

/// The address to probe for a domain: the domain itself where it begins
/// with `http`, else `https://` before it.
pub fn probe_url(domain: &str) -> (url: String)
    ensures
        url@ == if has_prefix(domain@, "http"@) {
            domain@
        } else {
            "https://"@ + domain@
        },
{
    if str_starts_with(domain, "http") {
        String::from_str(domain)
    } else {
        join2("https://", domain)
    }
}

/// Whether a status code says that a site is there: a success or a
/// redirection.
pub fn is_reachable_status(status: u16) -> (r: bool)
    ensures
        r == (200 <= status < 400),
{
    200 <= status && status < 400
}

} // verus!
