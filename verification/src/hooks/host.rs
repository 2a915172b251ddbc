//! The host that events are sent to: set once, trimmed of white space, with
//! the loopback address standing in when none is given.
use vstd::prelude::*;
use vstd::string::*;

verus! {

/// The characters with the Unicode `White_Space` property.
pub open spec fn is_white_space(c: char) -> bool {
    let v = c as u32;
    ||| 0x09 <= v <= 0x0D
    ||| v == 0x20
    ||| v == 0x85
    ||| v == 0xA0
    ||| v == 0x1680
    ||| 0x2000 <= v <= 0x200A
    ||| v == 0x2028
    ||| v == 0x2029
    ||| v == 0x202F
    ||| v == 0x205F
    ||| v == 0x3000
}

/// `s` without its leading white space.
pub open spec fn trim_start(s: Seq<char>) -> Seq<char>
    decreases s.len(),
{
    if s.len() > 0 && is_white_space(s[0]) {
        trim_start(s.drop_first())
    } else {
        s
    }
}

/// `s` without its trailing white space.
pub open spec fn trim_end(s: Seq<char>) -> Seq<char>
    decreases s.len(),
{
    if s.len() > 0 && is_white_space(s.last()) {
        trim_end(s.drop_last())
    } else {
        s
    }
}

/// `s` without its leading and trailing white space.
pub open spec fn trim(s: Seq<char>) -> Seq<char> {
    trim_end(trim_start(s))
}

/// The host to use for `host`: the trimmed text, or the loopback address
/// when nothing is left.
pub open spec fn host_for(host: Seq<char>) -> Seq<char> {
    if trim(host).len() == 0 {
        "127.0.0.1"@
    } else {
        trim(host)
    }
}

/// Trimming the start leaves a suffix that starts with a non-white-space
/// character, if it is not empty.
pub proof fn lemma_trim_start(s: Seq<char>)
    ensures
        trim_start(s).len() <= s.len(),
        trim_start(s) =~= s.skip(s.len() - trim_start(s).len()),
        trim_start(s).len() > 0 ==> !is_white_space(trim_start(s)[0]),
    decreases s.len(),
{
    if s.len() > 0 && is_white_space(s[0]) {
        lemma_trim_start(s.drop_first());
        assert(s.drop_first().skip(s.drop_first().len() - trim_start(s).len()) =~= s.skip(
            s.len() - trim_start(s).len(),
        ));
    }
}

/// Trimming the end leaves a prefix that ends with a non-white-space
/// character, if it is not empty.
pub proof fn lemma_trim_end(s: Seq<char>)
    ensures
        trim_end(s).len() <= s.len(),
        trim_end(s) =~= s.take(trim_end(s).len() as int),
        trim_end(s).len() > 0 ==> !is_white_space(trim_end(s).last()),
    decreases s.len(),
{
    if s.len() > 0 && is_white_space(s.last()) {
        lemma_trim_end(s.drop_last());
        assert(s.drop_last().take(trim_end(s).len() as int) =~= s.take(trim_end(s).len() as int));
    }
}

/// The host chosen for any text is not empty, does not start or end with
/// white space, and is chosen again for itself: setting it a second time
/// gives the same host.
pub proof fn lemma_host_for_is_trimmed(host: Seq<char>)
    ensures
        host_for(host).len() > 0,
        !is_white_space(host_for(host)[0]),
        !is_white_space(host_for(host).last()),
        host_for(host_for(host)) == host_for(host),
{
    let x = trim_start(host);
    lemma_trim_start(host);
    lemma_trim_end(x);
    let h = host_for(host);
    if trim(host).len() == 0 {
        reveal_strlit("127.0.0.1");
        assert(h =~= seq!['1', '2', '7', '.', '0', '.', '0', '.', '1']);
    } else {
        assert(trim(host)[0] == x[0]);
    }
    assert(trim_start(h) == h);
    assert(trim_end(h) == h);
}

/// Whether `c` has the Unicode `White_Space` property.
pub fn is_white_space_char(c: char) -> (b: bool)
    ensures
        b == is_white_space(c),
{
    let v = c as u32;
    (0x09 <= v && v <= 0x0D) || v == 0x20 || v == 0x85 || v == 0xA0 || v == 0x1680 || (0x2000 <= v
        && v <= 0x200A) || v == 0x2028 || v == 0x2029 || v == 0x202F || v == 0x205F || v == 0x3000
}

/// `s` without its leading and trailing white space.
pub fn trim_white_space(s: &str) -> (r: String)
    ensures
        r@ == trim(s@),
{
    let n = s.unicode_len();
    let mut start: usize = 0;
    assert(s@.skip(0) =~= s@);
    while start < n && is_white_space_char(s.get_char(start))
        invariant
            n == s@.len(),
            start <= n,
            trim_start(s@) == trim_start(s@.skip(start as int)),
        decreases n - start,
    {
        assert(s@.skip(start as int).drop_first() =~= s@.skip(start + 1));
        start = start + 1;
    }
    let mut end: usize = n;
    assert(s@.skip(start as int) =~= s@.subrange(start as int, end as int));
    while end > start && is_white_space_char(s.get_char(end - 1))
        invariant
            n == s@.len(),
            start <= end <= n,
            start < n ==> !is_white_space(s@[start as int]),
            trim(s@) == trim_end(s@.subrange(start as int, end as int)),
        decreases end - start,
    {
        assert(s@.subrange(start as int, end as int).drop_last() =~= s@.subrange(
            start as int,
            end - 1,
        ));
        end = end - 1;
    }
    proof {
        if end > start {
            assert(s@.subrange(start as int, end as int).last() == s@[end - 1]);
        } else {
            assert(s@.subrange(start as int, end as int).len() == 0);
        }
    }
    s.substring_char(start, end).to_owned()
}

/// The host as it was set, or nothing yet.
pub struct HostSetting {
    pub host: Option<String>,
}

/// Sets the host once: the first call stores `host` trimmed (the loopback
/// address when nothing is left); later calls change nothing.
pub fn set_host(setting: &mut HostSetting, host: &str)
    ensures
        match old(setting).host {
            Some(h) => final(setting).host == Some(h),
            None => final(setting).host matches Some(h) && h@ == host_for(host@),
        },
{
    if setting.host.is_none() {
        let trimmed = trim_white_space(host);
        let chosen = if trimmed.as_str().unicode_len() == 0 {
            "127.0.0.1".to_owned()
        } else {
            trimmed
        };
        setting.host = Some(chosen);
    }
}

/// The address events are sent to: the host set, or the loopback address
/// when none was, at port 1800.
pub fn destination(setting: &HostSetting) -> (d: String)
    ensures
        d@ == match setting.host {
            Some(h) => h@,
            None => "127.0.0.1"@,
        } + ":1800"@,
{
    let mut d = match &setting.host {
        Some(h) => h.clone(),
        None => "127.0.0.1".to_owned(),
    };
    d.append(":1800");
    d
}

} // verus!
