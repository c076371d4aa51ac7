//! URIs, their forms, and what is read of them.

use vstd::prelude::*;

use crate::error::{Error, ErrorKind};
use crate::forms::{
    absolute_form, authority_form, domain_as_uri, extract_domain, get_non_default_port, host_header,
    is_schema_secure, origin_form, set_scheme, PoolKey,
};
use crate::text::{
    after_last, before_first, decimal, decimal_reads_back, is_digit, u16_of, u16_reads_back, value,
};
use crate::uri::{
    host_of, is_authority, is_scheme_char, path_and_query_of, port_of, Authority, InvalidComponent,
    InvalidParts, Parts, PathAndQuery, Scheme, Uri,
};

verus! {

/// What stands before the first of a character is the longest beginning without it.
pub proof fn piece_before_the_first(s: Seq<char>, c: char)
    ensures
        before_first(s, c).len() <= s.len(),
        before_first(s, c) == s.take(before_first(s, c).len() as int),
        forall|i: int| 0 <= i < before_first(s, c).len() ==> s[i] != c,
        before_first(s, c).len() < s.len() ==> s[before_first(s, c).len() as int] == c,
    decreases s.len(),
{
    if s.len() > 0 && s[0] != c {
        let rest = s.skip(1);
        let piece = before_first(rest, c);
        piece_before_the_first(rest, c);
        assert(before_first(s, c) =~= s.take(piece.len() as int + 1)) by {
            assert forall|i: int| 0 <= i < piece.len() implies piece[i] == s[i + 1] by {
                assert(piece[i] == rest[i]);
            }
        }
        assert forall|i: int| 0 <= i < piece.len() + 1 implies s[i] != c by {
            if i > 0 {
                assert(rest[i - 1] == s[i]);
            }
        }
    } else {
        assert(before_first(s, c) =~= s.take(0));
    }
}

/// What stands after the last of a character is the longest end without it, and there is
/// none where the character does not occur.
pub proof fn piece_after_the_last(s: Seq<char>, c: char)
    ensures
        after_last(s, c) is None <==> !s.contains(c),
        after_last(s, c) matches Some(rest) ==> {
            &&& rest.len() < s.len()
            &&& rest == s.skip(s.len() - rest.len())
            &&& !rest.contains(c)
            &&& s[s.len() - rest.len() - 1] == c
        },
    decreases s.len(),
{
    if s.len() > 0 {
        let front = s.drop_last();
        piece_after_the_last(front, c);
        if s.last() == c {
            assert(s[s.len() - 1] == c);
            assert(s.skip(s.len() as int) =~= Seq::<char>::empty());
        } else {
            assert(s.contains(c) <==> front.contains(c)) by {
                if s.contains(c) {
                    let i = choose|i: int| 0 <= i < s.len() && s[i] == c;
                    assert(front[i] == c);
                }
                if front.contains(c) {
                    let i = choose|i: int| 0 <= i < front.len() && front[i] == c;
                    assert(s[i] == c);
                }
            }
            if let Some(rest) = after_last(front, c) {
                let all = rest.push(s.last());
                assert(all =~= s.skip(s.len() - all.len())) by {
                    assert forall|i: int| 0 <= i < rest.len() implies rest[i] == s[s.len()
                        - all.len() + i] by {
                        assert(rest[i] == front.skip(front.len() - rest.len())[i]);
                    }
                }
                assert(!all.contains(c)) by {
                    if all.contains(c) {
                        let i = choose|i: int| 0 <= i < all.len() && all[i] == c;
                        assert(rest[i] == c);
                        assert(rest.contains(c));
                    }
                }
            }
        }
    }
}

proof fn before_first_is(s: Seq<char>, c: char, n: int)
    requires
        0 <= n <= s.len(),
        forall|i: int| 0 <= i < n ==> s[i] != c,
        n < s.len() ==> s[n] == c,
    ensures
        before_first(s, c) == s.take(n),
{
    piece_before_the_first(s, c);
    let m = before_first(s, c).len();
    if m < n {
        assert(s[m as int] == c);
    }
    if n < m {
        assert(s[n] != c);
    }
}

proof fn after_last_is(s: Seq<char>, c: char, n: int)
    requires
        0 <= n < s.len(),
        s[n] == c,
        forall|i: int| n < i < s.len() ==> s[i] != c,
    ensures
        after_last(s, c) == Some(s.skip(n + 1)),
{
    piece_after_the_last(s, c);
    assert(s.contains(c));
    let rest = after_last(s, c)->0;
    let m = s.len() - rest.len() - 1;
    if m < n {
        assert(rest[n - m - 1] == s[n]);
        assert(rest.contains(c));
    }
}

/// The host of an authority stands between the user information, if any, and the port,
/// if any.
pub proof fn host_is_between_user_and_port(user: Seq<char>, host: Seq<char>, port: Seq<char>)
    requires
        user.len() > 0 ==> user.last() == '@',
        host.len() > 0 && host[0] != '[',
        !host.contains('@') && !host.contains(':'),
        port.len() > 0 ==> port[0] == ':',
        !port.contains('@'),
    ensures
        host_of(user + host + port) == host,
{
    let all = user + host + port;
    let host_port = host + port;
    let n = user.len() as int;
    assert forall|i: int| n <= i < all.len() implies all[i] != '@' by {
        if i < n + host.len() {
            assert(all[i] == host[i - n]);
        } else {
            assert(all[i] == port[i - n - host.len()]);
        }
    }
    piece_after_the_last(all, '@');
    if n > 0 {
        assert(all[n - 1] == '@');
        after_last_is(all, '@', n - 1);
        assert(all.skip(n) =~= host_port);
    } else {
        assert(all =~= host_port);
    }
    assert forall|i: int| 0 <= i < host.len() implies host_port[i] != ':' by {
        assert(host_port[i] == host[i]);
    }
    if port.len() > 0 {
        assert(host_port[host.len() as int] == port[0]);
    }
    before_first_is(host_port, ':', host.len() as int);
    assert(host_port.take(host.len() as int) =~= host);
    assert(host_port[0] == host[0]);
}

/// A host in brackets is told with its brackets, whatever colons stand in it.
pub proof fn bracketed_host_is_told_whole(user: Seq<char>, inner: Seq<char>, port: Seq<char>)
    requires
        user.len() > 0 ==> user.last() == '@',
        !inner.contains(']') && !inner.contains('@'),
        !port.contains('@'),
    ensures
        host_of(user + (seq!['['] + inner + seq![']']) + port) == seq!['['] + inner + seq![']'],
{
    let host = seq!['['] + inner + seq![']'];
    let all = user + host + port;
    let host_port = host + port;
    let n = user.len() as int;
    assert forall|i: int| n <= i < all.len() implies all[i] != '@' by {
        if i < n + host.len() {
            assert(all[i] == host[i - n]);
            if 0 < i - n < host.len() - 1 {
                assert(host[i - n] == inner[i - n - 1]);
            }
        } else {
            assert(all[i] == port[i - n - host.len()]);
        }
    }
    piece_after_the_last(all, '@');
    if n > 0 {
        assert(all[n - 1] == '@');
        after_last_is(all, '@', n - 1);
        assert(all.skip(n) =~= host_port);
    } else {
        assert(all =~= host_port);
    }
    assert forall|i: int| 0 <= i < inner.len() + 1 implies host_port[i] != ']' by {
        if i > 0 {
            assert(host_port[i] == inner[i - 1]);
        }
    }
    assert(host_port[inner.len() as int + 1] == ']');
    before_first_is(host_port, ']', inner.len() as int + 1);
    assert(host_port.take(inner.len() as int + 1).push(']') =~= host);
}

/// The port of an authority is the number behind its last colon, and there is none
/// without a colon. A port that was written in decimal is read back.
pub proof fn port_is_behind_the_last_colon(front: Seq<char>, port: u16, plain: Seq<char>)
    requires
        !plain.contains(':'),
    ensures
        port_of(front + seq![':'] + decimal(port as nat)) == Some(port),
        port_of(plain) is None,
{
    let digits = decimal(port as nat);
    let all = front + seq![':'] + digits;
    decimal_reads_back(port as nat);
    assert(all[front.len() as int] == ':');
    assert forall|i: int| front.len() < i < all.len() implies all[i] != ':' by {
        assert(all[i] == digits[i - front.len() - 1]);
        assert(is_digit(digits[i - front.len() - 1]));
    }
    after_last_is(all, ':', front.len() as int);
    assert(all.skip(front.len() as int + 1) =~= digits);
    u16_reads_back(port);
    piece_after_the_last(plain, ':');
}

/// Only decimal digits, behind one plus sign at most, are read as a number, and no number
/// above the largest of 16 bits.
pub proof fn only_digits_are_a_number(s: Seq<char>)
    ensures
        u16_of(s) is Some ==> s.len() > 0 && forall|i: int|
            0 <= i < s.len() ==> '0' <= #[trigger] s[i] <= '9' || i == 0 && s[i] == '+',
{
    if u16_of(s) is Some {
        assert forall|i: int| 0 <= i < s.len() implies '0' <= #[trigger] s[i] <= '9' || i == 0
            && s[i] == '+' by {
            if s[0] == '+' {
                if i > 0 {
                    assert(is_digit(s.skip(1)[i - 1]));
                }
            } else {
                assert(is_digit(s[i]));
            }
        }
    }
}

proof fn value_is_not_negative(digits: Seq<char>)
    requires
        forall|i: int| 0 <= i < digits.len() ==> is_digit(#[trigger] digits[i]),
    ensures
        value(digits) >= 0,
    decreases digits.len(),
{
    if digits.len() > 0 {
        assert(is_digit(digits[digits.len() - 1]));
        assert forall|i: int| 0 <= i < digits.drop_last().len() implies is_digit(
            #[trigger] digits.drop_last()[i],
        ) by {
            assert(is_digit(digits[i]));
        }
        value_is_not_negative(digits.drop_last());
    }
}

/// A number is read digit by digit, and a plus sign before it does not count.
pub proof fn number_is_read_digit_by_digit(s: Seq<char>, c: char)
    requires
        '0' <= c <= '9',
    ensures
        u16_of(seq![c]) == Some((c as int - 48) as u16),
        u16_of(s) matches Some(n) ==> u16_of(s.push(c)) == (if n * 10 + (c as int - 48) <= 65535 {
            Some((n * 10 + (c as int - 48)) as u16)
        } else {
            None
        }),
        s.len() > 0 && s[0] != '+' ==> u16_of(seq!['+'] + s) == u16_of(s),
{
    assert(value(seq![c]) == c as int - 48) by {
        reveal_with_fuel(value, 2);
        assert(seq![c].drop_last() =~= Seq::<char>::empty());
    }
    assert((seq!['+'] + s).skip(1) =~= s);
    if u16_of(s) is Some {
        let digits = if s[0] == '+' {
            s.skip(1)
        } else {
            s
        };
        let longer = if s[0] == '+' {
            s.push(c).skip(1)
        } else {
            s.push(c)
        };
        value_is_not_negative(digits);
        assert(longer =~= digits.push(c));
        assert(longer.drop_last() =~= digits);
        assert forall|i: int| 0 <= i < longer.len() implies is_digit(#[trigger] longer[i]) by {
            if i < digits.len() {
                assert(is_digit(digits[i]));
            }
        }
        assert(s.push(c)[0] == s[0]);
    }
}

/// A number in decimal has no leading zeros.
pub proof fn decimal_has_no_leading_zeros(n: nat)
    ensures
        decimal(n).len() > 0,
        n > 0 ==> decimal(n)[0] != '0',
        n == 0 ==> decimal(n) == seq!['0'],
    decreases n,
{
    if n >= 10 {
        decimal_has_no_leading_zeros(n / 10);
    }
}

/// A component keeps the text that it was read from, but for a path, which is what was
/// read of it.
pub proof fn components_keep_their_text(
    s: &str,
    scheme: Result<Scheme, InvalidComponent>,
    authority: Result<Authority, InvalidComponent>,
    path: Result<PathAndQuery, InvalidComponent>,
)
    requires
        call_ensures(Scheme::parse, (s,), scheme),
        call_ensures(Authority::parse, (s,), authority),
        call_ensures(PathAndQuery::parse, (s,), path),
    ensures
        scheme matches Ok(read) ==> read@ == s@,
        scheme is Ok <==> s@.len() <= 64 && forall|i: int|
            0 <= i < s@.len() ==> {
                let c = #[trigger] s@[i];
                ||| 'a' <= c <= 'z'
                ||| 'A' <= c <= 'Z'
                ||| '0' <= c <= '9'
                ||| c == '+' || c == '-' || c == '.' || c == '~'
            },
        authority matches Ok(read) ==> read@ == s@,
        authority is Ok <==> is_authority(s@),
        path matches Ok(read) ==> Some(read@) == path_and_query_of(s@),
        path is Ok <==> path_and_query_of(s@) is Some,
{
    if scheme is Ok {
        assert forall|i: int| 0 <= i < s@.len() implies ({
            let c = #[trigger] s@[i];
            ||| 'a' <= c <= 'z'
            ||| 'A' <= c <= 'Z'
            ||| '0' <= c <= '9'
            ||| c == '+' || c == '-' || c == '.' || c == '~'
        }) by {
            assert(is_scheme_char(s@[i]));
        }
    }
}

/// Components are told as they are kept.
pub proof fn components_tell_their_text(
    scheme: &Scheme,
    scheme_text: &str,
    authority: &Authority,
    authority_text: &str,
    path: &PathAndQuery,
    path_text: &str,
)
    requires
        call_ensures(Scheme::as_str, (scheme,), scheme_text),
        call_ensures(Authority::as_str, (authority,), authority_text),
        call_ensures(PathAndQuery::as_str, (path,), path_text),
    ensures
        scheme_text@ == scheme@,
        authority_text@ == authority@,
        path_text@ == path@,
{
}

/// A scheme is another text if and only if the two are the same, letter for letter.
pub proof fn schemes_are_compared_by_letter(scheme: &Scheme, s: &str, same: bool)
    requires
        call_ensures(Scheme::is, (scheme, s), same),
    ensures
        same <==> scheme@ == s@,
{
}

/// An authority tells the host and the port of its text.
pub proof fn authority_tells_host_and_port(
    authority: &Authority,
    host: String,
    port: Option<u16>,
)
    requires
        call_ensures(Authority::host, (authority,), host),
        call_ensures(Authority::port_u16, (authority,), port),
    ensures
        host@ == host_of(authority@),
        port == port_of(authority@),
{
}

/// A scheme goes with an authority and a path; an authority without a scheme stands
/// alone. What goes together is kept, and nothing at all is the path `/`.
pub proof fn uri_is_made_of_its_parts(parts: Parts, made: Result<Uri, InvalidParts>)
    requires
        call_ensures(Uri::from_parts, (parts,), made),
    ensures
        made is Ok <==> {
            &&& parts.scheme is Some ==> parts.authority is Some && parts.path_and_query is Some
            &&& parts.scheme is None ==> parts.authority is None || parts.path_and_query is None
        },
        made matches Ok(uri) ==> {
            &&& uri@.scheme is Some <==> parts.scheme is Some
            &&& parts.scheme matches Some(scheme) ==> uri@.scheme == Some(scheme@)
            &&& uri@.authority is Some <==> parts.authority is Some
            &&& parts.authority matches Some(authority) ==> uri@.authority == Some(authority@)
            &&& parts.path_and_query matches Some(path) ==> uri@.path_and_query == Some(path@)
            &&& parts.path_and_query is None ==> (if parts.authority is None {
                uri@.path_and_query == Some(seq!['/'])
            } else {
                uri@.path_and_query is None
            })
        },
{
}

/// A URI tells its parts, and its clone has the same.
pub proof fn uri_tells_its_parts(
    uri: &Uri,
    scheme: Option<&Scheme>,
    authority: Option<&Authority>,
    path: Option<&PathAndQuery>,
    clone: Uri,
)
    requires
        call_ensures(Uri::scheme, (uri,), scheme),
        call_ensures(Uri::authority, (uri,), authority),
        call_ensures(Uri::path_and_query, (uri,), path),
        call_ensures(Uri::clone, (uri,), clone),
    ensures
        scheme is None <==> uri@.scheme is None,
        scheme matches Some(scheme) ==> uri@.scheme == Some(scheme@),
        authority is None <==> uri@.authority is None,
        authority matches Some(authority) ==> uri@.authority == Some(authority@),
        path is None <==> uri@.path_and_query is None,
        path matches Some(path) ==> uri@.path_and_query == Some(path@),
        clone@ == uri@,
{
}

/// The path of a URI is left alone, and is `/` where there was none.
pub proof fn origin_form_is_the_path(uri: &mut Uri)
    requires
        call_ensures(origin_form, (uri,), ()),
    ensures
        final(uri)@.scheme is None,
        final(uri)@.authority is None,
        old(uri)@.path_and_query is Some ==> final(uri)@.path_and_query
            == old(uri)@.path_and_query,
        old(uri)@.path_and_query is None ==> final(uri)@.path_and_query == Some(seq!['/']),
{
}

/// A proxy is sent a URI as it is, but for `https`, of which it is sent the path.
pub proof fn absolute_form_is_the_uri(uri: &mut Uri)
    requires
        call_ensures(absolute_form, (uri,), ()),
    ensures
        old(uri)@.scheme != Some("https"@) ==> final(uri)@ == old(uri)@,
        old(uri)@.scheme == Some("https"@) ==> {
            &&& final(uri)@.scheme is None
            &&& final(uri)@.authority is None
            &&& old(uri)@.path_and_query is Some ==> final(uri)@.path_and_query
                == old(uri)@.path_and_query
            &&& old(uri)@.path_and_query is None ==> final(uri)@.path_and_query == Some(seq!['/'])
        },
{
}

/// The authority of a URI is left alone.
pub proof fn authority_form_is_the_authority(uri: &mut Uri)
    requires
        call_ensures(authority_form, (uri,), ()),
    ensures
        final(uri)@.scheme is None,
        final(uri)@.authority == old(uri)@.authority,
        final(uri)@.path_and_query is None,
{
}

/// A destination is found if and only if there is an authority, and a scheme or a
/// tunnel. A URI with a scheme stays as it is, and so does one without a destination.
pub proof fn destination_is_found<S>(
    uri: &mut Uri,
    is_http_connect: bool,
    found: Result<PoolKey, Error<S>>,
)
    requires
        call_ensures(extract_domain::<S>, (uri, is_http_connect), found),
    ensures
        found is Ok <==> old(uri)@.authority is Some && (old(uri)@.scheme is Some
            || is_http_connect),
        found matches Err(err) ==> {
            &&& err.kind == ErrorKind::UserAbsoluteUriRequired
            &&& err.source is None
            &&& final(uri)@ == old(uri)@
        },
        found matches Ok(key) ==> {
            &&& Some(key.1@) == old(uri)@.authority
            &&& final(uri)@.authority == old(uri)@.authority
            &&& final(uri)@.scheme == Some(key.0@)
            &&& old(uri)@.scheme is Some ==> final(uri)@ == old(uri)@
            &&& old(uri)@.scheme is None ==> final(uri)@.path_and_query == Some(seq!['/'])
            &&& old(uri)@.scheme is None && port_of(key.1@) == Some(443u16) ==> key.0@ == "https"@
            &&& old(uri)@.scheme is None && port_of(key.1@) != Some(443u16) ==> key.0@ == "http"@
        },
{
}

/// The URI of a destination is its scheme, its authority and the path `/`.
pub proof fn uri_of_a_destination(key: PoolKey, uri: Uri)
    requires
        call_ensures(domain_as_uri, (key,), uri),
    ensures
        uri@.scheme == Some(key.0@),
        uri@.authority == Some(key.1@),
        uri@.path_and_query == Some(seq!['/']),
{
}

/// A scheme is set beside the authority, with the path `/`.
pub proof fn scheme_is_set_beside_the_authority(uri: &mut Uri, scheme: Scheme)
    requires
        call_ensures(set_scheme, (uri, scheme), ()),
        old(uri)@.authority is Some,
    ensures
        final(uri)@.scheme == Some(scheme@),
        final(uri)@.authority == old(uri)@.authority,
        final(uri)@.path_and_query == Some(seq!['/']),
{
}

/// Two schemes run over TLS: `https` and `wss`.
pub proof fn secure_schemes_are_https_and_wss(uri: &Uri, secure: bool)
    requires
        call_ensures(is_schema_secure, (uri,), secure),
    ensures
        secure <==> uri@.scheme == Some("https"@) || uri@.scheme == Some("wss"@),
{
}

/// A port is left out if and only if it is 443 and the scheme is `https` or `wss`, or it
/// is 80 and the scheme is another one. Any other port is told as it is.
pub proof fn only_default_ports_are_left_out(uri: &Uri, told: Option<u16>)
    requires
        call_ensures(get_non_default_port, (uri,), told),
    ensures
        uri@.authority is None ==> told is None,
        uri@.authority matches Some(authority) ==> {
            let secure = uri@.scheme == Some("https"@) || uri@.scheme == Some("wss"@);
            &&& port_of(authority) is None ==> told is None
            &&& port_of(authority) matches Some(port) ==> {
                let default_port = secure && port == 443 || !secure && port == 80;
                &&& default_port ==> told is None
                &&& !default_port ==> told == Some(port)
            }
        },
{
}

/// A `Host` header is the host of the authority, followed by a colon and the port unless
/// the scheme stands for the port.
pub proof fn host_header_is_host_and_port(uri: &Uri, header: String)
    requires
        call_ensures(host_header, (uri,), header),
        uri@.authority is Some,
    ensures
        ({
            let authority = uri@.authority->0;
            let secure = uri@.scheme == Some("https"@) || uri@.scheme == Some("wss"@);
            &&& port_of(authority) is None ==> header@ == host_of(authority)
            &&& port_of(authority) matches Some(port) ==> {
                let default_port = secure && port == 443 || !secure && port == 80;
                &&& default_port ==> header@ == host_of(authority)
                &&& !default_port ==> header@ == host_of(authority) + seq![':'] + decimal(
                    port as nat,
                )
            }
        }),
{
}

/// The two schemes of HTTP, the path `/`, and the URI that is this path alone.
pub proof fn values_that_are_given(
    http: Scheme,
    https: Scheme,
    slash: PathAndQuery,
    default_uri: Uri,
)
    requires
        call_ensures(Scheme::http, (), http),
        call_ensures(Scheme::https, (), https),
        call_ensures(PathAndQuery::slash, (), slash),
        call_ensures(Uri::default, (), default_uri),
    ensures
        http@ == seq!['h', 't', 't', 'p'],
        https@ == seq!['h', 't', 't', 'p', 's'],
        slash@ == seq!['/'],
        default_uri@.scheme is None,
        default_uri@.authority is None,
        default_uri@.path_and_query == Some(seq!['/']),
{
    reveal_strlit("http");
    reveal_strlit("https");
}

/// A clone of a component is the same.
pub proof fn clones_of_components_are_the_same(
    scheme: &Scheme,
    scheme_clone: Scheme,
    authority: &Authority,
    authority_clone: Authority,
    path: &PathAndQuery,
    path_clone: PathAndQuery,
)
    requires
        call_ensures(Scheme::clone, (scheme,), scheme_clone),
        call_ensures(Authority::clone, (authority,), authority_clone),
        call_ensures(PathAndQuery::clone, (path,), path_clone),
    ensures
        scheme_clone == *scheme,
        authority_clone == *authority,
        path_clone == *path,
{
}

} // verus!
