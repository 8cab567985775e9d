//! What holds of format detection and of an import as a whole.

use vstd::prelude::*;

use crate::error::{ErrorResponse, ProxyError, ProxyErrorModel};
use crate::handler::{
    detect_format_from_extension, detect_format_via_head, handle_image_xva, Fetching, HeadModel,
    HeadOutcome, HeadReply, ImageParams, Import, ImportModel, JobModel, Locking, ParamsModel,
    Probing,
};
use crate::lock::ImportGuard;
use crate::state::AppState;
use crate::stream::{
    fetch_xva_stream, FetchError, FetchOutcome, GuardedStream, ImageFormat, Method, StreamModel,
    UpstreamRequest,
};

verus! {

/// Whether a text holds neither a query string nor a fragment.
pub open spec fn is_plain_path(s: Seq<char>) -> bool {
    forall|i: int| 0 <= i < s.len() ==> (#[trigger] s[i]) != '?' && s[i] != '#'
}

/// The path of a URL that begins with a plain path is that and the path of what
/// follows.
proof fn lemma_path_len_splits(path: Seq<char>, rest: Seq<char>)
    requires
        is_plain_path(path),
    ensures
        crate::handler::path_len(path + rest) == path.len() + crate::handler::path_len(rest),
    decreases path.len(),
{
    if path.len() == 0 {
        assert(path + rest =~= rest);
    } else {
        let tail = path.drop_first();
        assert(path[0] == (path + rest)[0]);
        assert forall|i: int| 0 <= i < tail.len() implies (#[trigger] tail[i]) != '?' && tail[i]
            != '#' by {
            assert(tail[i] == path[i + 1]);
        }
        lemma_path_len_splits(tail, rest);
        assert((path + rest).drop_first() =~= tail + rest);
    }
}

proof fn lemma_path_len_bound(url: Seq<char>)
    ensures
        crate::handler::path_len(url) <= url.len(),
    decreases url.len(),
{
    if url.len() > 0 && !crate::handler::ends_path(url[0]) {
        lemma_path_len_bound(url.drop_first());
    }
}

proof fn lemma_path_splits(path: Seq<char>, rest: Seq<char>)
    requires
        is_plain_path(path),
    ensures
        crate::handler::path_of(path + rest) == path + crate::handler::path_of(rest),
{
    lemma_path_len_splits(path, rest);
    lemma_path_len_bound(rest);
    assert(crate::handler::path_of(path + rest) =~= path + crate::handler::path_of(rest));
}

/// A plain path is its own path.
pub proof fn law_plain_path_is_whole(path: Seq<char>)
    requires
        is_plain_path(path),
    ensures
        crate::handler::path_of(path) == path,
{
    lemma_path_splits(path, Seq::empty());
    assert(path + Seq::<char>::empty() =~= path);
    assert(crate::handler::path_of(Seq::empty()) =~= Seq::<char>::empty());
    assert(path + crate::handler::path_of(Seq::empty()) =~= path);
}

proof fn lemma_path_len_ends_at_rest(path: Seq<char>, rest: Seq<char>)
    requires
        rest.len() > 0 && (rest[0] == '?' || rest[0] == '#'),
    ensures
        crate::handler::path_len(path + rest) == crate::handler::path_len(path),
    decreases path.len(),
{
    if path.len() == 0 {
        assert(path + rest =~= rest);
    } else {
        assert((path + rest)[0] == path[0]);
        assert((path + rest).drop_first() =~= path.drop_first() + rest);
        lemma_path_len_ends_at_rest(path.drop_first(), rest);
    }
}

/// What follows a `?` or `#` has no part in the detection.
pub proof fn law_query_and_fragment_do_not_matter(path: Seq<char>, rest: Seq<char>)
    requires
        rest.len() > 0 && (rest[0] == '?' || rest[0] == '#'),
    ensures
        crate::handler::format_from_extension(path + rest)
            == crate::handler::format_from_extension(path),
{
    lemma_path_len_ends_at_rest(path, rest);
    lemma_path_len_bound(path);
    assert(crate::handler::path_of(path + rest) =~= crate::handler::path_of(path));
}

/// Whether `s` is `word`, which is written in small letters, with letters of
/// either case.
pub open spec fn spells(s: Seq<char>, word: Seq<char>) -> bool {
    s.len() == word.len() && forall|i: int|
        #![trigger s[i]]
        0 <= i < s.len() ==> s[i] == word[i] || ('a' <= word[i] <= 'z' && s[i] as int + 32
            == word[i] as int)
}

/// Whether `s` ends in `word`, with letters of either case.
pub open spec fn ends_in(s: Seq<char>, word: Seq<char>) -> bool {
    word.len() <= s.len() && spells(s.subrange(s.len() - word.len(), s.len() as int), word)
}

proof fn lemma_spelling_is_folding(s: Seq<char>, word: Seq<char>)
    requires
        forall|i: int| 0 <= i < word.len() ==> !('A' <= #[trigger] word[i] <= 'Z'),
    ensures
        spells(s, word) <==> crate::text::lower(s) == word,
{
    crate::text::law_folding_moves_capital_letters_only(s);
    let low = crate::text::lower(s);
    if spells(s, word) {
        assert forall|i: int| 0 <= i < low.len() implies low[i] == word[i] by {
            assert(s[i] == word[i] || s[i] as int + 32 == word[i] as int);
            assert(!('A' <= word[i] <= 'Z'));
        }
        assert(low =~= word);
    }
    if low == word {
        assert forall|i: int|
            #![trigger s[i]]
            0 <= i < s.len() implies s[i] == word[i] || ('a' <= word[i] <= 'z' && s[i] as int + 32
            == word[i] as int) by {
            assert(low[i] == word[i]);
        }
    }
}

proof fn lemma_ending_is_folding(s: Seq<char>, word: Seq<char>)
    requires
        forall|i: int| 0 <= i < word.len() ==> !('A' <= #[trigger] word[i] <= 'Z'),
    ensures
        ends_in(s, word) <==> word.is_suffix_of(crate::text::lower(s)),
{
    if word.len() <= s.len() {
        let end = s.subrange(s.len() - word.len(), s.len() as int);
        lemma_spelling_is_folding(end, word);
        let low = crate::text::lower(s);
        assert(crate::text::lower(end) =~= low.subrange(
            low.len() - word.len(),
            low.len() as int,
        ));
    }
}

proof fn lemma_path_len_is(url: Seq<char>, n: int)
    requires
        0 <= n <= url.len(),
        forall|i: int| 0 <= i < n ==> (#[trigger] url[i]) != '?' && url[i] != '#',
        n < url.len() ==> url[n] == '?' || url[n] == '#',
    ensures
        crate::handler::path_len(url) == n,
{
    let path = url.take(n);
    let rest = url.skip(n);
    assert(path + rest =~= url);
    assert forall|i: int| 0 <= i < path.len() implies (#[trigger] path[i]) != '?' && path[i]
        != '#' by {
        assert(path[i] == url[i]);
    }
    lemma_path_len_splits(path, rest);
    if n < url.len() {
        assert(rest[0] == url[n]);
    }
}

/// The ending of what stands before the first `?` or `#` tells the format, and
/// nothing else does: `.xva.gz` and `.xva.gzip` tell a compressed image, `.xva` a
/// raw one, in letters of either case; any other ending tells nothing.
pub proof fn law_ending_of_the_path_tells_the_format(url: Seq<char>, n: int)
    requires
        0 <= n <= url.len(),
        forall|i: int| 0 <= i < n ==> (#[trigger] url[i]) != '?' && url[i] != '#',
        n < url.len() ==> url[n] == '?' || url[n] == '#',
    ensures
        crate::handler::format_from_extension(url) == Some(ImageFormat::Gzip) <==> ends_in(
            url.take(n),
            ".xva.gz"@,
        ) || ends_in(url.take(n), ".xva.gzip"@),
        crate::handler::format_from_extension(url) == Some(ImageFormat::Raw) <==> ends_in(
            url.take(n),
            ".xva"@,
        ),
{
    reveal_strlit(".xva");
    reveal_strlit(".xva.gz");
    reveal_strlit(".xva.gzip");
    lemma_path_len_is(url, n);
    let path = url.take(n);
    lemma_ending_is_folding(path, ".xva"@);
    lemma_ending_is_folding(path, ".xva.gz"@);
    lemma_ending_is_folding(path, ".xva.gzip"@);
    let low = crate::text::lower(path);
    assert(".xva"@.is_suffix_of(low) ==> low.subrange(low.len() - 4, low.len() as int)[3] == 'a');
    assert(".xva.gz"@.is_suffix_of(low) ==> low.subrange(low.len() - 7, low.len() as int)[6]
        == 'z');
    assert(".xva.gzip"@.is_suffix_of(low) ==> low.subrange(low.len() - 9, low.len() as int)[8]
        == 'p');
}

/// Every URL has a place where its path ends, so that
/// [`law_ending_of_the_path_tells_the_format`] speaks of every URL.
pub proof fn law_every_path_ends(url: Seq<char>) -> (n: int)
    ensures
        0 <= n <= url.len(),
        forall|i: int| 0 <= i < n ==> (#[trigger] url[i]) != '?' && url[i] != '#',
        n < url.len() ==> url[n] == '?' || url[n] == '#',
    decreases url.len(),
{
    if url.len() == 0 || url[0] == '?' || url[0] == '#' {
        0
    } else {
        let tail = url.drop_first();
        let m = law_every_path_ends(tail);
        assert forall|i: int| 0 <= i < m + 1 implies (#[trigger] url[i]) != '?' && url[i]
            != '#' by {
            if i > 0 {
                assert(url[i] == tail[i - 1]);
            }
        }
        if m + 1 < url.len() {
            assert(url[m + 1] == tail[m]);
        }
        m + 1
    }
}

/// Two URLs that differ in the case of ASCII letters only have paths that do.
proof fn lemma_path_len_ignores_case(a: Seq<char>, b: Seq<char>)
    requires
        crate::text::lower(a) == crate::text::lower(b),
    ensures
        crate::handler::path_len(a) == crate::handler::path_len(b),
    decreases a.len(),
{
    assert(crate::text::lower(a).len() == a.len());
    assert(crate::text::lower(b).len() == b.len());
    if a.len() > 0 {
        assert(crate::text::lower(a)[0] == crate::text::ascii_lower(a[0]));
        assert(crate::text::lower(b)[0] == crate::text::ascii_lower(b[0]));
        assert(crate::text::lower(a.drop_first()) =~= crate::text::lower(a).drop_first());
        assert(crate::text::lower(b.drop_first()) =~= crate::text::lower(b).drop_first());
        lemma_path_len_ignores_case(a.drop_first(), b.drop_first());
    }
}

/// The case of ASCII letters has no part in the detection.
pub proof fn law_case_does_not_matter(a: Seq<char>, b: Seq<char>)
    requires
        crate::text::lower(a) == crate::text::lower(b),
    ensures
        crate::handler::format_from_extension(a) == crate::handler::format_from_extension(b),
{
    lemma_path_len_ignores_case(a, b);
    lemma_path_len_bound(a);
    assert(crate::text::lower(a).len() == a.len());
    assert(crate::text::lower(b).len() == b.len());
    let n = crate::handler::path_len(a) as int;
    assert(crate::text::lower(a.take(n)) =~= crate::text::lower(a).take(n));
    assert(crate::text::lower(b.take(n)) =~= crate::text::lower(b).take(n));
}

/// An ending without a slash is looked for behind the last slash only.
proof fn lemma_ending_behind_slash(word: Seq<char>, dir: Seq<char>, tail: Seq<char>)
    requires
        forall|i: int| 0 <= i < word.len() ==> word[i] != '/',
        tail.len() > 0 && tail[0] == '/',
    ensures
        word.is_suffix_of(dir + tail) <==> word.is_suffix_of(tail),
{
    let all = dir + tail;
    if word.is_suffix_of(all) {
        let from = all.len() - word.len();
        if word.len() > tail.len() {
            let k = dir.len() - from;
            assert(word[k] == all.subrange(from, all.len() as int)[k]);
            assert(word[k] == '/');
        } else {
            assert(all.subrange(from, all.len() as int) =~= tail.subrange(
                tail.len() - word.len(),
                tail.len() as int,
            ));
        }
    }
    if word.is_suffix_of(tail) {
        assert(all.subrange(all.len() - word.len(), all.len() as int) =~= tail.subrange(
            tail.len() - word.len(),
            tail.len() as int,
        ));
    }
}

/// The directories of a URL, its host and its scheme have no part in the
/// detection: only what follows the last slash of them has.
pub proof fn law_directories_do_not_matter(dir: Seq<char>, name: Seq<char>)
    requires
        is_plain_path(dir),
    ensures
        crate::handler::format_from_extension(dir + (seq!['/'] + name))
            == crate::handler::format_from_extension(seq!['/'] + name),
{
    reveal_strlit(".xva");
    reveal_strlit(".xva.gz");
    reveal_strlit(".xva.gzip");
    let slash = seq!['/'];
    lemma_path_splits(dir, slash + name);
    lemma_path_splits(slash, name);
    let tail = crate::handler::path_of(slash + name);
    let low_dir = crate::text::lower(dir);
    let low_tail = crate::text::lower(tail);
    assert(tail[0] == '/');
    assert(low_tail[0] == '/');
    assert(crate::text::lower(dir + tail) =~= low_dir + low_tail);
    lemma_ending_behind_slash(".xva"@, low_dir, low_tail);
    lemma_ending_behind_slash(".xva.gz"@, low_dir, low_tail);
    lemma_ending_behind_slash(".xva.gzip"@, low_dir, low_tail);
}

/// It is all one to the detection whether the source is HTTP or HTTPS.
pub proof fn law_scheme_does_not_matter(rest: Seq<char>)
    ensures
        crate::handler::format_from_extension("http://"@ + rest)
            == crate::handler::format_from_extension("https://"@ + rest),
{
    reveal_strlit("http://");
    reveal_strlit("https://");
    reveal_strlit("http:/");
    reveal_strlit("https:/");
    assert("http://"@ + rest =~= "http:/"@ + (seq!['/'] + rest));
    assert("https://"@ + rest =~= "https:/"@ + (seq!['/'] + rest));
    law_directories_do_not_matter("http:/"@, rest);
    law_directories_do_not_matter("https:/"@, rest);
}

/// A plain path that ends in `.xva` tells a raw image, one that ends in
/// `.xva.gz` or `.xva.gzip` a compressed one.
pub proof fn law_known_extensions_are_told(path: Seq<char>)
    requires
        is_plain_path(path),
    ensures
        crate::handler::format_from_extension(path + ".xva"@) == Some(ImageFormat::Raw),
        crate::handler::format_from_extension(path + ".xva.gz"@) == Some(ImageFormat::Gzip),
        crate::handler::format_from_extension(path + ".xva.gzip"@) == Some(ImageFormat::Gzip),
{
    reveal_strlit(".xva");
    reveal_strlit(".xva.gz");
    reveal_strlit(".xva.gzip");
    assert(crate::text::lower(".xva"@) =~= ".xva"@);
    assert(crate::text::lower(".xva.gz"@) =~= ".xva.gz"@);
    assert(crate::text::lower(".xva.gzip"@) =~= ".xva.gzip"@);
    lemma_told_by(path, ".xva"@);
    lemma_told_by(path, ".xva.gz"@);
    lemma_told_by(path, ".xva.gzip"@);
    let low = crate::text::lower(path) + ".xva"@;
    assert(low.last() == 'a');
    assert(".xva.gz"@.is_suffix_of(low) ==> low.subrange(low.len() - 7, low.len() as int)[6]
        == 'z');
    assert(".xva.gzip"@.is_suffix_of(low) ==> low.subrange(low.len() - 9, low.len() as int)[8]
        == 'p');
}

proof fn lemma_told_by(path: Seq<char>, ending: Seq<char>)
    requires
        is_plain_path(path),
        is_plain_path(ending),
        crate::text::lower(ending) == ending,
    ensures
        crate::handler::format_from_extension(path + ending) == crate::handler::format_of_ending(
            crate::text::lower(path) + ending,
        ),
        ending.is_suffix_of(crate::text::lower(path) + ending),
{
    law_plain_path_is_whole(path + ending);
    assert(crate::text::lower(path + ending) =~= crate::text::lower(path) + crate::text::lower(
        ending,
    ));
    let all = crate::text::lower(path) + ending;
    assert(all.subrange(all.len() - ending.len(), all.len() as int) =~= ending);
}

/// A `.gz` tells a compressed image where `.xva` stands before it, and nothing
/// where it does not.
pub proof fn law_bare_gz_is_ambiguous(path: Seq<char>)
    requires
        is_plain_path(path),
    ensures
        crate::handler::format_from_extension(path + ".gz"@) == if ".xva"@.is_suffix_of(
            crate::text::lower(path),
        ) {
            Some(ImageFormat::Gzip)
        } else {
            None
        },
{
    reveal_strlit(".gz");
    reveal_strlit(".xva");
    reveal_strlit(".xva.gz");
    reveal_strlit(".xva.gzip");
    assert(crate::text::lower(".gz"@) =~= ".gz"@);
    lemma_told_by(path, ".gz"@);
    let low = crate::text::lower(path);
    let all = low + ".gz"@;
    assert(all.last() == 'z');
    assert(".xva.gzip"@.is_suffix_of(all) ==> all.subrange(all.len() - 9, all.len() as int)[8]
        == 'p');
    assert(".xva"@.is_suffix_of(all) ==> all.subrange(all.len() - 4, all.len() as int)[3] == 'a');
    assert(".xva.gz"@ =~= ".xva"@ + ".gz"@);
    if ".xva"@.is_suffix_of(low) {
        assert(all.subrange(all.len() - 7, all.len() as int) =~= ".xva"@ + ".gz"@);
    }
    if ".xva.gz"@.is_suffix_of(all) {
        assert(low.subrange(low.len() - 4, low.len() as int) =~= ".xva.gz"@.subrange(0, 4));
        assert(".xva.gz"@.subrange(0, 4) =~= ".xva"@);
    }
}

/// The parameters of a `Content-Type` have no part in whether it is one of gzip,
/// as long as the header can be read with them.
pub proof fn law_type_parameters_do_not_matter(media_type: Seq<u8>, parameters: Seq<u8>)
    requires
        parameters.len() > 0 && parameters[0] == 59,
        forall|i: int|
            0 <= i < media_type.len() ==> 32 <= #[trigger] media_type[i] <= 126 || media_type[i]
                == 9,
        forall|i: int|
            0 <= i < parameters.len() ==> 32 <= #[trigger] parameters[i] <= 126 || parameters[i]
                == 9,
    ensures
        crate::handler::is_gzip_type(Some(media_type + parameters))
            == crate::handler::is_gzip_type(Some(media_type)),
{
    let whole = media_type + parameters;
    assert forall|i: int| 0 <= i < whole.len() implies crate::handler::is_visible(
        #[trigger] whole[i],
    ) by {
        if i < media_type.len() {
            assert(whole[i] == media_type[i]);
        } else {
            assert(whole[i] == parameters[i - media_type.len()]);
        }
    }
    let head = crate::text::lower(crate::handler::header_text(Some(media_type)));
    let tail = crate::text::lower(crate::handler::header_text(Some(parameters)));
    assert(crate::text::lower(crate::handler::header_text(Some(whole))) =~= head + tail);
    assert(tail[0] == ';');
    crate::text::law_what_follows_does_not_matter(head, ';', tail);
}

/// Whether a header is there and holds nothing but visible ASCII, spaces and tabs.
pub open spec fn is_readable(value: Option<Seq<u8>>) -> bool {
    value matches Some(bytes) && forall|i: int|
        0 <= i < bytes.len() ==> 32 <= #[trigger] bytes[i] <= 126 || bytes[i] == 9
}

/// Whether `word`, which is written in small letters, stands in `bytes` at
/// position `i`, with letters of either case.
pub open spec fn spelled_at(bytes: Seq<u8>, word: Seq<char>, i: int) -> bool {
    0 <= i && i + word.len() <= bytes.len() && forall|k: int|
        #![trigger word[k]]
        0 <= k < word.len() ==> bytes[i + k] as int == word[k] as int || ('a' <= word[k] <= 'z'
            && bytes[i + k] as int + 32 == word[k] as int)
}

/// Whether a header can be read and `gzip` stands somewhere in it.
pub open spec fn mentions_gzip(value: Option<Seq<u8>>) -> bool {
    is_readable(value) && exists|i: int| spelled_at(value->0, "gzip"@, i)
}

/// Whether the first `end` of `bytes` are `word` with spaces and tabs around it.
pub open spec fn stands_alone(bytes: Seq<u8>, word: Seq<char>, end: int) -> bool {
    exists|i: int|
        {
            &&& #[trigger] spelled_at(bytes, word, i)
            &&& i + word.len() <= end <= bytes.len()
            &&& forall|j: int| 0 <= j < i ==> bytes[j] == 32 || bytes[j] == 9
            &&& forall|j: int| i + word.len() <= j < end ==> bytes[j] == 32 || bytes[j] == 9
        }
}

/// Whether a header can be read, and what stands before its first semicolon, or
/// all of it where there is none, is `word` with spaces and tabs around it.
pub open spec fn has_type(value: Option<Seq<u8>>, word: Seq<char>) -> bool {
    is_readable(value) && exists|end: int|
        {
            &&& #[trigger] stands_alone(value->0, word, end)
            &&& forall|j: int| 0 <= j < end ==> value->0[j] != 59
            &&& end < value->0.len() ==> value->0[end] == 59
        }
}

/// Whether a header can be read and is `word` with spaces and tabs around it.
pub open spec fn has_coding(value: Option<Seq<u8>>, word: Seq<char>) -> bool {
    is_readable(value) && stands_alone(value->0, word, value->0.len() as int)
}

/// The text of a header that can be read holds its bytes one by one, with capital
/// letters made small; any other header has an empty text.
proof fn lemma_lowered_header(value: Option<Seq<u8>>)
    ensures
        ({
            let text = crate::text::lower(crate::handler::header_text(value));
            if is_readable(value) {
                &&& text.len() == value->0.len()
                &&& forall|i: int|
                    #![trigger text[i]]
                    #![trigger value->0[i]]
                    0 <= i < text.len() ==> text[i] as int == if 65 <= value->0[i] <= 90 {
                        value->0[i] + 32
                    } else {
                        value->0[i] as int
                    }
            } else {
                text == Seq::<char>::empty()
            }
        }),
{
    let text = crate::text::lower(crate::handler::header_text(value));
    if is_readable(value) {
        let bytes = value->0;
        assert forall|i: int| 0 <= i < bytes.len() implies crate::handler::is_visible(
            #[trigger] bytes[i],
        ) by {}
        crate::text::law_folding_moves_capital_letters_only(crate::handler::header_text(value));
        assert(text.len() == bytes.len());
        assert forall|i: int|
            #![trigger text[i]]
            #![trigger bytes[i]]
            0 <= i < text.len() implies text[i] as int == if 65 <= bytes[i] <= 90 {
            bytes[i] + 32
        } else {
            bytes[i] as int
        } by {
            assert(crate::handler::header_text(value)[i] == bytes[i] as char);
        }
    } else {
        if let Some(bytes) = value {
            let i = choose|i: int|
                0 <= i < bytes.len() && !(32 <= #[trigger] bytes[i] <= 126 || bytes[i] == 9);
            assert(!crate::handler::is_visible(bytes[i]));
        }
        assert(text =~= Seq::<char>::empty());
    }
}

/// Whether `word` is nothing but small letters, slashes and hyphens, and at least
/// one of them.
spec fn is_small_word(word: Seq<char>) -> bool {
    word.len() > 0 && forall|k: int|
        0 <= k < word.len() ==> 'a' <= #[trigger] word[k] <= 'z' || word[k] == '/' || word[k] == '-'
}

/// A word stands in a header where it stands in the header's text.
proof fn lemma_spelled_in_text(value: Option<Seq<u8>>, word: Seq<char>, i: int)
    requires
        is_readable(value),
        is_small_word(word),
        0 <= i,
        i + word.len() <= value->0.len(),
    ensures
        spelled_at(value->0, word, i) <==> crate::text::lower(
            crate::handler::header_text(value),
        ).subrange(i, i + word.len()) == word,
{
    lemma_lowered_header(value);
    let bytes = value->0;
    let text = crate::text::lower(crate::handler::header_text(value));
    let part = text.subrange(i, i + word.len());
    if spelled_at(bytes, word, i) {
        assert forall|k: int| 0 <= k < word.len() implies part[k] == word[k] by {
            assert('a' <= word[k] <= 'z' || word[k] == '/' || word[k] == '-');
            assert(part[k] == text[i + k]);
        }
        assert(part =~= word);
    }
    if part == word {
        assert forall|k: int|
            #![trigger word[k]]
            0 <= k < word.len() implies bytes[i + k] as int == word[k] as int || ('a' <= word[k]
            <= 'z' && bytes[i + k] as int + 32 == word[k] as int) by {
            assert(part[k] == text[i + k]);
        }
    }
}

/// A word stands alone in the beginning of a header where trimming the beginning
/// of the header's text leaves the word.
proof fn lemma_alone_in_text(value: Option<Seq<u8>>, word: Seq<char>, end: int)
    requires
        is_readable(value),
        is_small_word(word),
        0 <= end <= value->0.len(),
    ensures
        stands_alone(value->0, word, end) <==> crate::text::trim(
            crate::text::lower(crate::handler::header_text(value)).take(end),
        ) == word,
{
    lemma_lowered_header(value);
    let bytes = value->0;
    let text = crate::text::lower(crate::handler::header_text(value));
    let part = text.take(end);
    assert forall|j: int| 0 <= j < end implies (part[j] == ' ' || part[j] == '\t' <==> bytes[j] == 32
        || bytes[j] == 9) by {
        assert(part[j] == text[j]);
    }
    if stands_alone(bytes, word, end) {
        let i = choose|i: int|
            {
                &&& #[trigger] spelled_at(bytes, word, i)
                &&& i + word.len() <= end <= bytes.len()
                &&& forall|j: int| 0 <= j < i ==> bytes[j] == 32 || bytes[j] == 9
                &&& forall|j: int| i + word.len() <= j < end ==> bytes[j] == 32 || bytes[j] == 9
            };
        let to = i + word.len();
        lemma_spelled_in_text(value, word, i);
        assert(part.subrange(i, to) =~= text.subrange(i, to));
        assert(part.subrange(i, to)[0] == word[0]);
        assert(part.subrange(i, to)[word.len() - 1] == word[word.len() - 1]);
        crate::text::law_trimming_is_unique(part, i, to);
    }
    if crate::text::trim(part) == word {
        crate::text::law_trimming_takes_outer_blanks(part);
        let (a, b) = choose|a: int, b: int|
            #![trigger part.subrange(a, b)]
            {
                &&& 0 <= a <= b <= part.len()
                &&& crate::text::trim(part) == part.subrange(a, b)
                &&& forall|i: int| 0 <= i < a ==> part[i] == ' ' || part[i] == '\t'
                &&& forall|i: int| b <= i < part.len() ==> part[i] == ' ' || part[i] == '\t'
                &&& a < b ==> part[a] != ' ' && part[a] != '\t' && part[b - 1] != ' ' && part[b
                    - 1] != '\t'
            };
        assert(b - a == word.len());
        assert(part.subrange(a, b) =~= text.subrange(a, b));
        lemma_spelled_in_text(value, word, a);
        assert(spelled_at(bytes, word, a));
        assert forall|j: int| 0 <= j < a implies bytes[j] == 32 || bytes[j] == 9 by {
            assert(part[j] == ' ' || part[j] == '\t');
        }
        assert forall|j: int| a + word.len() <= j < end implies bytes[j] == 32 || bytes[j] == 9 by {
            assert(part[j] == ' ' || part[j] == '\t');
        }
    }
}

/// Trimming an empty text leaves no word.
proof fn lemma_unreadable_is_no_word(value: Option<Seq<u8>>, word: Seq<char>)
    requires
        !is_readable(value),
        word.len() > 0,
    ensures
        crate::text::trim(
            crate::text::before(
                crate::text::lower(crate::handler::header_text(value)),
                ';',
            ),
        ) != word,
        crate::text::trim(crate::text::lower(crate::handler::header_text(value))) != word,
{
    lemma_lowered_header(value);
    let empty = Seq::<char>::empty();
    crate::text::law_cut_is_at_the_first(empty, ';');
    assert(crate::text::before(empty, ';') =~= empty);
    assert(crate::text::trim(empty).len() == 0);
}

proof fn lemma_type_in_text(value: Option<Seq<u8>>, word: Seq<char>)
    requires
        is_small_word(word),
    ensures
        has_type(value, word) <==> crate::text::trim(
            crate::text::before(
                crate::text::lower(crate::handler::header_text(value)),
                ';',
            ),
        ) == word,
{
    if is_readable(value) {
        lemma_lowered_header(value);
        let bytes = value->0;
        let text = crate::text::lower(crate::handler::header_text(value));
        let cut = crate::text::before(text, ';');
        crate::text::law_cut_is_at_the_first(text, ';');
        let n = cut.len() as int;
        assert(cut =~= text.take(n));
        lemma_alone_in_text(value, word, n);
        assert forall|j: int| 0 <= j < n implies bytes[j] != 59 by {
            assert(cut[j] == text[j]);
        }
        if n < text.len() {
            assert(text[n] == ';');
            assert(bytes[n] == 59);
        }
        if has_type(value, word) {
            let end = choose|end: int|
                {
                    &&& #[trigger] stands_alone(bytes, word, end)
                    &&& forall|j: int| 0 <= j < end ==> bytes[j] != 59
                    &&& end < bytes.len() ==> bytes[end] == 59
                };
            assert(end == n) by {
                if end < n {
                    assert(bytes[end] != 59);
                }
                if n < end {
                    assert(bytes[n] != 59);
                }
            }
        }
    } else {
        lemma_unreadable_is_no_word(value, word);
    }
}

proof fn lemma_coding_in_text(value: Option<Seq<u8>>, word: Seq<char>)
    requires
        is_small_word(word),
    ensures
        has_coding(value, word) <==> crate::text::trim(
            crate::text::lower(crate::handler::header_text(value)),
        ) == word,
{
    if is_readable(value) {
        lemma_lowered_header(value);
        let text = crate::text::lower(crate::handler::header_text(value));
        lemma_alone_in_text(value, word, text.len() as int);
        assert(text.take(text.len() as int) =~= text);
    } else {
        lemma_unreadable_is_no_word(value, word);
    }
}

/// A probe that is answered without an error tells a compressed image where the
/// type is `application/gzip` or `application/x-gzip`, whatever parameters follow
/// it, or the coding is `gzip`, in letters of either case; in every other case it
/// tells a raw one.
pub proof fn law_headers_tell_the_format(
    status: u16,
    content_type: Option<Seq<u8>>,
    content_encoding: Option<Seq<u8>>,
)
    requires
        status < 400 || status >= 600,
    ensures
        crate::handler::format_from_head(
            HeadModel::Answered { status, content_type, content_encoding },
        ) == Ok::<ImageFormat, ProxyErrorModel>(
            if has_type(content_type, "application/gzip"@) || has_type(
                content_type,
                "application/x-gzip"@,
            ) || has_coding(content_encoding, "gzip"@) {
                ImageFormat::Gzip
            } else {
                ImageFormat::Raw
            },
        ),
{
    reveal_strlit("application/gzip");
    reveal_strlit("application/x-gzip");
    reveal_strlit("gzip");
    lemma_type_in_text(content_type, "application/gzip"@);
    lemma_type_in_text(content_type, "application/x-gzip"@);
    lemma_coding_in_text(content_encoding, "gzip"@);
}

proof fn lemma_type_mentions_gzip(value: Option<Seq<u8>>, word: Seq<char>, at: int)
    requires
        has_type(value, word) || has_coding(value, word),
        0 <= at,
        at + 4 <= word.len(),
        word[at] == 'g' && word[at + 1] == 'z' && word[at + 2] == 'i' && word[at + 3] == 'p',
    ensures
        mentions_gzip(value),
{
    reveal_strlit("gzip");
    let bytes = value->0;
    let i = choose|i: int| #[trigger] spelled_at(bytes, word, i);
    assert forall|k: int|
        #![trigger "gzip"@[k]]
        0 <= k < 4 implies bytes[i + at + k] as int == "gzip"@[k] as int || ('a' <= "gzip"@[k]
        <= 'z' && bytes[i + at + k] as int + 32 == "gzip"@[k] as int) by {
        assert(word[at + k] == "gzip"@[k]);
        assert(bytes[i + (at + k)] as int == word[at + k] as int || bytes[i + (at + k)] as int + 32
            == word[at + k] as int);
    }
    assert(spelled_at(bytes, "gzip"@, i + at));
}

/// No image is taken for a compressed one unless a header says `gzip`: where the
/// probe is answered without an error, and neither the type nor the coding can be
/// read and mentions it, the image is raw.
pub proof fn law_nothing_but_gzip_tells_gzip(
    status: u16,
    content_type: Option<Seq<u8>>,
    content_encoding: Option<Seq<u8>>,
)
    requires
        status < 400 || status >= 600,
        !mentions_gzip(content_type),
        !mentions_gzip(content_encoding),
    ensures
        crate::handler::format_from_head(
            HeadModel::Answered { status, content_type, content_encoding },
        ) == Ok::<ImageFormat, ProxyErrorModel>(ImageFormat::Raw),
{
    reveal_strlit("application/gzip");
    reveal_strlit("application/x-gzip");
    reveal_strlit("gzip");
    law_headers_tell_the_format(status, content_type, content_encoding);
    if has_type(content_type, "application/gzip"@) {
        lemma_type_mentions_gzip(content_type, "application/gzip"@, 12);
    }
    if has_type(content_type, "application/x-gzip"@) {
        lemma_type_mentions_gzip(content_type, "application/x-gzip"@, 14);
    }
    if has_coding(content_encoding, "gzip"@) {
        lemma_type_mentions_gzip(content_encoding, "gzip"@, 0);
    }
}

/// A probe tells no format where no answer came, and where one came with a status
/// code from 400 up to 599, whatever its headers say; with any other status code
/// it tells one.
pub proof fn law_when_a_probe_fails(
    reason: Seq<char>,
    status: u16,
    content_type: Option<Seq<u8>>,
    content_encoding: Option<Seq<u8>>,
)
    ensures
        crate::handler::format_from_head(HeadModel::Failed(reason)) == Err::<
            ImageFormat,
            ProxyErrorModel,
        >(ProxyErrorModel::ProbeFailed("HEAD request failed: "@ + reason)),
        ({
            let told = crate::handler::format_from_head(
                HeadModel::Answered { status, content_type, content_encoding },
            );
            if 400 <= status < 600 {
                told == Err::<ImageFormat, ProxyErrorModel>(
                    ProxyErrorModel::ProbeFailed(
                        "HEAD request failed: "@ + ("upstream returned status "@
                            + crate::text::decimal(status as nat)),
                    ),
                )
            } else {
                told is Ok
            }
        }),
{
}

/// Every source that begins with `http://` or `https://` is taken on, whatever
/// follows.
pub proof fn law_every_web_source_is_taken_on(rest: Seq<char>, verify_ssl: Option<bool>)
    ensures
        !(crate::handler::begin(
            ParamsModel { src: Some("http://"@ + rest), verify_ssl },
        ) is Refused),
        !(crate::handler::begin(
            ParamsModel { src: Some("https://"@ + rest), verify_ssl },
        ) is Refused),
{
    assert(("http://"@ + rest).subrange(0, "http://"@.len() as int) =~= "http://"@);
    assert(("https://"@ + rest).subrange(0, "https://"@.len() as int) =~= "https://"@);
}

/// A source that begins with neither `http://` nor `https://` is a bad request,
/// and so is a missing one; a bad source is quoted, up to 40 characters of it.
pub proof fn law_no_other_source_is_taken_on(url: Seq<char>, verify_ssl: Option<bool>)
    ensures
        crate::handler::begin(ParamsModel { src: None, verify_ssl }) == ImportModel::Refused(
            ProxyErrorModel::BadRequest("Missing required query parameter: src"@),
        ),
        (forall|rest: Seq<char>| url != #[trigger] ("http://"@ + rest)) && (forall|rest: Seq<char>|
            url != #[trigger] ("https://"@ + rest)) ==> crate::handler::begin(ParamsModel { src: Some(url), verify_ssl })
            == ImportModel::Refused(
            ProxyErrorModel::BadRequest(
                "src must start with http:// or https://, got: "@ + if url.len() <= 40 {
                    url
                } else {
                    url.take(40)
                },
            ),
        ),
{
    if "http://"@.is_prefix_of(url) {
        let rest = url.skip("http://"@.len() as int);
        assert(url =~= "http://"@ + rest);
    }
    if "https://"@.is_prefix_of(url) {
        let rest = url.skip("https://"@.len() as int);
        assert(url =~= "https://"@ + rest);
    }
}

/// Each step hands the job on as it got it. The lock alone decides whether an
/// import goes on to fetch, and the outcome of the fetch alone whether it goes on
/// to stream.
pub proof fn law_steps_hand_the_job_on(
    job: JobModel,
    format: ImageFormat,
    head: HeadModel,
    status: u16,
)
    ensures
        crate::handler::after_probe(job, head) matches ImportModel::Locking(j, f) ==> j == job
            && Ok::<ImageFormat, ProxyErrorModel>(f) == crate::handler::format_from_head(head),
        crate::handler::after_probe(job, head) is Locking <==> crate::handler::format_from_head(
            head,
        ) is Ok,
        crate::handler::format_from_head(head) matches Err(e) ==> crate::handler::after_probe(
            job,
            head,
        ) == ImportModel::Refused(e),
        crate::handler::after_lock(job, format, true) == ImportModel::Fetching(job, format),
        crate::handler::after_lock(job, format, false) == ImportModel::Refused(
            ProxyErrorModel::ImportInProgress,
        ),
        crate::handler::after_fetch(job, format, FetchOutcome::ConnectFailed)
            == ImportModel::Refused(
            ProxyErrorModel::UpstreamFailed(
                "Failed to fetch upstream image: "@ + "Failed to connect to upstream"@,
            ),
        ),
        400 <= status < 600 ==> crate::handler::after_fetch(
            job,
            format,
            FetchOutcome::Answered(status),
        ) == ImportModel::Refused(
            ProxyErrorModel::UpstreamFailed(
                "Failed to fetch upstream image: "@ + "Upstream returned non-2xx status"@,
            ),
        ),
        !(400 <= status < 600) ==> crate::handler::after_fetch(
            job,
            format,
            FetchOutcome::Answered(status),
        ) == ImportModel::Streaming(StreamModel { src_url: job.src_url, format, bytes_sent: 0 }),
{
}

/// Whatever an import probes, locks and fetches for is what its parameters ask
/// for, in either format and with or without a probe.
pub proof fn law_job_is_the_one_asked_for(params: ParamsModel, head: HeadModel, granted: bool)
    ensures
        crate::handler::begin(params) matches ImportModel::Probing(job) ==> {
            &&& params.src == Some(job.src_url)
            &&& job.ssl_verify == (params.verify_ssl != Some(false))
            &&& crate::handler::after_probe(job, head) matches ImportModel::Locking(probed, format)
                ==> {
                &&& params.src == Some(probed.src_url)
                &&& probed.ssl_verify == (params.verify_ssl != Some(false))
                &&& crate::handler::after_lock(probed, format, granted) is Fetching <==> granted
                &&& crate::handler::after_lock(
                    probed,
                    format,
                    granted,
                ) matches ImportModel::Fetching(locked, kept) ==> {
                    &&& params.src == Some(locked.src_url)
                    &&& locked.ssl_verify == (params.verify_ssl != Some(false))
                    &&& kept == format
                }
            }
        },
        crate::handler::begin(params) matches ImportModel::Locking(job, format) ==> {
            &&& params.src == Some(job.src_url)
            &&& job.ssl_verify == (params.verify_ssl != Some(false))
            &&& crate::handler::after_lock(job, format, granted) is Fetching <==> granted
            &&& crate::handler::after_lock(job, format, granted) matches ImportModel::Fetching(
                locked,
                kept,
            ) ==> {
                &&& params.src == Some(locked.src_url)
                &&& locked.ssl_verify == (params.verify_ssl != Some(false))
                &&& kept == format
            }
        },
{
}

/// Where an import stands once everything has been tried that it asks for.
pub open spec fn answer(
    params: ParamsModel,
    head: HeadModel,
    granted: bool,
    fetch: FetchOutcome,
) -> ImportModel {
    let probed = match crate::handler::begin(params) {
        ImportModel::Probing(job) => crate::handler::after_probe(job, head),
        other => other,
    };
    let locked = match probed {
        ImportModel::Locking(job, format) => crate::handler::after_lock(job, format, granted),
        other => other,
    };
    match locked {
        ImportModel::Fetching(job, format) => crate::handler::after_fetch(job, format, fetch),
        other => other,
    }
}

/// The image that the caller of an import is owed when the upstream sends
/// `body`: none where the import is refused. It is what
/// [`crate::stream::relay_image`] makes of the whole body; a program that streams
/// the body through the decoder chunk by chunk is not covered by it.
pub open spec fn received(
    params: ParamsModel,
    head: HeadModel,
    granted: bool,
    fetch: FetchOutcome,
    body: Seq<u8>,
) -> Option<Seq<u8>> {
    match answer(params, head, granted, fetch) {
        ImportModel::Streaming(s) => crate::stream::relayed(s.format, body),
        _ => None,
    }
}

/// The format of a source: the extension tells it, or else the probe.
pub open spec fn detected(url: Seq<char>, head: HeadModel) -> Result<ImageFormat, ProxyErrorModel> {
    match crate::handler::format_from_extension(url) {
        Some(format) => Ok(format),
        None => crate::handler::format_from_head(head),
    }
}

/// An import is streamed exactly where its source is an HTTP or HTTPS URL, its
/// format is told by the extension or by the probe, no other import holds the
/// lock, and the upstream answers without an error; and what is streamed is that
/// source in that format.
pub proof fn law_when_an_import_streams(
    params: ParamsModel,
    head: HeadModel,
    granted: bool,
    fetch: FetchOutcome,
)
    ensures
        answer(params, head, granted, fetch) is Streaming <==> {
            &&& params.src matches Some(url)
            &&& "http://"@.is_prefix_of(url) || "https://"@.is_prefix_of(url)
            &&& detected(url, head) is Ok
            &&& granted
            &&& fetch matches FetchOutcome::Answered(status)
            &&& status < 400 || status >= 600
        },
        answer(params, head, granted, fetch) matches ImportModel::Streaming(s) ==> s == (
        StreamModel {
            src_url: params.src->0,
            format: detected(params.src->0, head)->Ok_0,
            bytes_sent: 0,
        }),
{
}

/// An import that is not streamed is refused with the first of its faults, in
/// this order: a bad parameter (400), a failed probe (502), an import in
/// progress (409), a failed fetch (502).
pub proof fn law_first_fault_is_answered(
    params: ParamsModel,
    head: HeadModel,
    granted: bool,
    fetch: FetchOutcome,
)
    ensures
        answer(params, head, granted, fetch) is Streaming || answer(
            params,
            head,
            granted,
            fetch,
        ) is Refused,
        answer(params, head, granted, fetch) matches ImportModel::Refused(e) ==> {
            let ok_src = params.src is Some && ("http://"@.is_prefix_of(params.src->0)
                || "https://"@.is_prefix_of(params.src->0));
            &&& e is BadRequest <==> !ok_src
            &&& e is ProbeFailed <==> ok_src && detected(params.src->0, head) is Err
            &&& e is ImportInProgress <==> ok_src && detected(params.src->0, head) is Ok
                && !granted
            &&& e is UpstreamFailed <==> ok_src && detected(params.src->0, head) is Ok && granted
            &&& !(e is NotFound)
        },
{
}

/// No probe is made of a source whose extension tells its format.
pub proof fn law_probe_is_a_fallback(params: ParamsModel)
    ensures
        crate::handler::begin(params) is Probing <==> {
            &&& params.src matches Some(url)
            &&& "http://"@.is_prefix_of(url) || "https://"@.is_prefix_of(url)
            &&& crate::handler::format_from_extension(url) is None
        },
{
}

/// Certificates are checked unless `verify_ssl=false` is given, whatever the
/// scheme and the format.
pub proof fn law_certificates_are_checked_by_default(params: ParamsModel)
    ensures
        crate::handler::begin(params) matches ImportModel::Probing(job) ==> job.ssl_verify == (
        params.verify_ssl != Some(false)),
        crate::handler::begin(params) matches ImportModel::Locking(job, format) ==> job.ssl_verify
            == (params.verify_ssl != Some(false)),
{
}

/// All four combinations of scheme and known extension are streamed where the
/// lock is free and the upstream answers without an error, and no probe has a say
/// in it: the caller is owed a plain image unchanged and a compressed one
/// decompressed, as [`received`] says of a whole body.
pub proof fn law_decision_matrix(
    path: Seq<char>,
    verify_ssl: Option<bool>,
    head: HeadModel,
    fetch: FetchOutcome,
    body: Seq<u8>,
)
    requires
        is_plain_path(path),
        "http://"@.is_prefix_of(path) || "https://"@.is_prefix_of(path),
        fetch matches FetchOutcome::Answered(status) && (status < 400 || status >= 600),
    ensures
        answer(ParamsModel { src: Some(path + ".xva"@), verify_ssl }, head, true, fetch)
            == ImportModel::Streaming(
            StreamModel { src_url: path + ".xva"@, format: ImageFormat::Raw, bytes_sent: 0 },
        ),
        answer(ParamsModel { src: Some(path + ".xva.gz"@), verify_ssl }, head, true, fetch)
            == ImportModel::Streaming(
            StreamModel { src_url: path + ".xva.gz"@, format: ImageFormat::Gzip, bytes_sent: 0 },
        ),
        received(ParamsModel { src: Some(path + ".xva"@), verify_ssl }, head, true, fetch, body)
            == Some(body),
        received(ParamsModel { src: Some(path + ".xva.gz"@), verify_ssl }, head, true, fetch, body)
            == crate::stream::gunzipped(body),
{
    law_known_extensions_are_told(path);
    lemma_scheme_stays(path, ".xva"@);
    lemma_scheme_stays(path, ".xva.gz"@);
}

/// Behind a URL whose extension is ambiguous, the caller is owed the image
/// decompressed where the probe is answered with a gzip type or a gzip coding, and
/// unchanged where it is not, as [`received`] says of a whole body.
pub proof fn law_probe_decides_what_is_received(
    url: Seq<char>,
    verify_ssl: Option<bool>,
    status: u16,
    content_type: Option<Seq<u8>>,
    content_encoding: Option<Seq<u8>>,
    fetch: FetchOutcome,
    body: Seq<u8>,
)
    requires
        "http://"@.is_prefix_of(url) || "https://"@.is_prefix_of(url),
        crate::handler::format_from_extension(url) is None,
        status < 400 || status >= 600,
        fetch matches FetchOutcome::Answered(code) && (code < 400 || code >= 600),
    ensures
        received(
            ParamsModel { src: Some(url), verify_ssl },
            HeadModel::Answered { status, content_type, content_encoding },
            true,
            fetch,
            body,
        ) == if has_type(content_type, "application/gzip"@) || has_type(
            content_type,
            "application/x-gzip"@,
        ) || has_coding(content_encoding, "gzip"@) {
            crate::stream::gunzipped(body)
        } else {
            Some(body)
        },
{
    law_headers_tell_the_format(status, content_type, content_encoding);
}

/// Whether an import goes on to fetch or is refused as the second one is what an
/// attempt on the shared lock came to, whatever its source, its format and its
/// certificate checks: without an attempt that found the lock taken nothing is
/// refused, and a guard that was got is kept.
pub proof fn law_the_lock_alone_decides(locking: Locking, state: AppState, r: Import)
    requires
        call_ensures(Locking::acquire, (locking, &state), r),
    ensures
        exists|outcome: Option<ImportGuard>| #[trigger]
            crate::lock::attempted(state.lock(), outcome) && match outcome {
                Some(guard) => r matches Import::Fetching(f) && f.guard() == guard && f@
                    == locking@,
                None => r == Import::Refused(ProxyError::ImportInProgress),
            },
{
}

/// The guard that an import is handed decides alone whether it goes on.
pub proof fn law_a_guard_lets_an_import_go_on(
    locking: Locking,
    guard: Option<ImportGuard>,
    r: Import,
)
    requires
        call_ensures(Locking::resume, (locking, guard), r),
    ensures
        guard is None <==> r == Import::Refused(ProxyError::ImportInProgress),
        guard is Some <==> r is Fetching,
        r matches Import::Fetching(f) ==> guard == Some(f.guard()) && f@ == locking@,
{
}

/// The request for the image that comes of a request to the proxy asks for the
/// source that was given, with certificates checked unless `verify_ssl=false` was
/// given, in either format and with or without a probe; so does the probe itself.
pub proof fn law_upstream_is_asked_for_what_was_given(
    params: ImageParams,
    begun: Import,
    probe: UpstreamRequest,
    head: HeadOutcome,
    probed: Import,
    guard: Option<ImportGuard>,
    locked: Import,
    request: UpstreamRequest,
)
    requires
        call_ensures(handle_image_xva, (params,), begun),
        begun matches Import::Probing(p) ==> call_ensures(Probing::request, (&p,), probe)
            && call_ensures(Probing::resume, (p, head), probed),
        !(begun is Probing) ==> probed == begun,
        probed matches Import::Locking(l) && call_ensures(Locking::resume, (l, guard), locked),
        locked matches Import::Fetching(f) && call_ensures(Fetching::request, (&f,), request),
    ensures
        params.src matches Some(src) && request.url@ == src@ && (begun is Probing ==> probe.url@
            == src@),
        request.ssl_verify == (params.verify_ssl != Some(false)),
        request.method == Method::Get,
        request.accept_encoding@ == "identity"@,
        begun is Probing ==> probe.ssl_verify == (params.verify_ssl != Some(false)),
        begun is Probing ==> probe.method == Method::Head,
        begun is Probing ==> probe.accept_encoding@ == "identity"@,
{
}

/// A request to the proxy is refused at once exactly where its source is missing
/// or begins with neither `http://` nor `https://`, and that is a bad request.
pub proof fn law_what_is_refused_at_once(params: ImageParams, r: Import)
    requires
        call_ensures(handle_image_xva, (params,), r),
    ensures
        r is Refused <==> !{
            &&& params.src matches Some(src)
            &&& "http://"@.is_prefix_of(src@) || "https://"@.is_prefix_of(src@)
        },
        r matches Import::Refused(e) ==> e is BadRequest,
        r is Refused || r is Probing || r is Locking,
{
}

/// The answer to a HEAD request tells a compressed image exactly where one of the
/// headers names gzip, and fails exactly where its status code is an error.
pub proof fn law_what_a_probe_tells(reply: HeadReply, r: Result<ImageFormat, ProxyError>)
    requires
        call_ensures(detect_format_via_head, (HeadOutcome::Answered(reply),), r),
    ensures
        r is Err <==> 400 <= reply.status < 600,
        r matches Err(e) ==> e is ProbeFailed,
        r matches Ok(format) ==> {
            let content_type = match reply.content_type {
                Some(bytes) => Some(bytes@),
                None => None::<Seq<u8>>,
            };
            let content_encoding = match reply.content_encoding {
                Some(bytes) => Some(bytes@),
                None => None::<Seq<u8>>,
            };
            &&& format == ImageFormat::Gzip <==> has_type(content_type, "application/gzip"@)
                || has_type(content_type, "application/x-gzip"@) || has_coding(
                content_encoding,
                "gzip"@,
            )
            &&& format == ImageFormat::Gzip ==> mentions_gzip(content_type) || mentions_gzip(
                content_encoding,
            )
        },
{
    if reply.status < 400 || reply.status >= 600 {
        let content_type = match reply.content_type {
            Some(bytes) => Some(bytes@),
            None => None::<Seq<u8>>,
        };
        let content_encoding = match reply.content_encoding {
            Some(bytes) => Some(bytes@),
            None => None::<Seq<u8>>,
        };
        law_headers_tell_the_format(reply.status, content_type, content_encoding);
        if !mentions_gzip(content_type) && !mentions_gzip(content_encoding) {
            law_nothing_but_gzip_tells_gzip(reply.status, content_type, content_encoding);
        }
    }
}

/// The extension of a URL tells a format exactly where what stands before its
/// first `?` or `#` ends in one of the known endings.
pub proof fn law_what_an_extension_tells(url: &str, n: int, r: Option<ImageFormat>)
    requires
        call_ensures(detect_format_from_extension, (url,), r),
        0 <= n <= url@.len(),
        forall|i: int| 0 <= i < n ==> (#[trigger] url@[i]) != '?' && url@[i] != '#',
        n < url@.len() ==> url@[n] == '?' || url@[n] == '#',
    ensures
        r == Some(ImageFormat::Gzip) <==> ends_in(url@.take(n), ".xva.gz"@) || ends_in(
            url@.take(n),
            ".xva.gzip"@,
        ),
        r == Some(ImageFormat::Raw) <==> ends_in(url@.take(n), ".xva"@),
{
    law_ending_of_the_path_tells_the_format(url@, n);
}

/// An answer of the upstream is streamed exactly where its status code is below
/// 400 or not below 600; from 400 up to 599 it is a failure by status, and no
/// answer at all is a failure to connect.
pub proof fn law_what_a_fetch_comes_to(
    src: &str,
    format: ImageFormat,
    outcome: FetchOutcome,
    guard: ImportGuard,
    r: Result<GuardedStream, FetchError>,
)
    requires
        call_ensures(fetch_xva_stream, (src, format, outcome, guard), r),
    ensures
        r == Err::<GuardedStream, FetchError>(FetchError::Connect) <==> outcome is ConnectFailed,
        r == Err::<GuardedStream, FetchError>(FetchError::Status) <==> (
        outcome matches FetchOutcome::Answered(status) && 400 <= status < 600),
        r matches Ok(s) ==> s@.src_url == src@ && s@.format == format && s@.bytes_sent == 0
            && s.guard() == guard,
{
}

/// A request that is refused at any step is answered with 400 where its
/// parameters are at fault, with 409 where another import holds the lock, and with
/// 502 where the upstream is at fault.
pub proof fn law_what_a_refusal_is_answered_with(e: ProxyError, r: ErrorResponse)
    requires
        call_ensures(ProxyError::into_response, (e,), r),
    ensures
        e is BadRequest <==> r.status == 400,
        e is NotFound <==> r.status == 404,
        e is ImportInProgress <==> r.status == 409,
        e is UpstreamFailed || e is ProbeFailed <==> r.status == 502,
{
}

proof fn lemma_scheme_stays(path: Seq<char>, ending: Seq<char>)
    requires
        crate::handler::has_http_scheme(path),
    ensures
        crate::handler::has_http_scheme(path + ending),
{
    if "http://"@.is_prefix_of(path) {
        assert((path + ending).subrange(0, "http://"@.len() as int) =~= path.subrange(
            0,
            "http://"@.len() as int,
        ));
    } else {
        assert((path + ending).subrange(0, "https://"@.len() as int) =~= path.subrange(
            0,
            "https://"@.len() as int,
        ));
    }
}

} // verus!
