//! Truncate strings in a human-friendly way.
//!
//! A string is cut after a given number of user-perceived characters —
//! extended grapheme clusters in the sense of Unicode Standard Annex #29 —
//! and a marker (by default `"..."`) is appended when something was cut.
//! Cutting by bytes or by code points can split a cluster such as a flag
//! emoji or a letter with combining marks; cutting at cluster boundaries
//! never does.

use unicode_segmentation::UnicodeSegmentation;
use vstd::prelude::*;

verus! {

use vstd::seq_lib::lemma_flatten_concat;

/// The extended grapheme clusters of a string of characters, in order.
///
/// This names the result of segmenting a string under the extended
/// grapheme cluster rules of Unicode Standard Annex #29, which depends on
/// the characters alone. The facts the library relies on — the clusters
/// concatenated in order give back the string — are stated where the
/// segmentation is performed.
pub uninterp spec fn graphemes_of(s: Seq<char>) -> Seq<Seq<char>>;

/// The character sequences of a vector of cluster strings.
pub open spec fn cluster_views(gs: Seq<String>) -> Seq<Seq<char>> {
    gs.map_values(|g: String| g@)
}

/// Relies on `unicode_segmentation::UnicodeSegmentation::graphemes` with
/// `is_extended = true`: it yields the extended grapheme clusters of `s` as
/// consecutive substrings that cover `s` exactly and in order, and its
/// result depends on the characters of `s` alone.
#[verifier::external_body]
fn grapheme_clusters(s: &str) -> (r: Vec<String>)
    ensures
        cluster_views(r@) == graphemes_of(s@),
        cluster_views(r@).flatten() == s@,
{
    s.graphemes(true).map(|g| g.to_string()).collect()
}

/// The number of extended grapheme clusters in `text`.
pub fn grapheme_count(text: &str) -> (n: usize)
    ensures
        n == graphemes_of(text@).len(),
{
    let gs = grapheme_clusters(text);
    proof {
        assert(cluster_views(gs@).len() == gs@.len());
    }
    gs.len()
}

/// What truncation returns, as a sequence of characters.
///
/// A text whose cluster count is at most `max_len` is returned unchanged.
/// Truncating a longer text to zero clusters yields the empty string, with
/// no marker. Otherwise the result is the first `max_len` clusters of the
/// text, in order, followed by the whole marker.
pub open spec fn truncated_view(text: Seq<char>, max_len: nat, marker: Seq<char>) -> Seq<char> {
    if graphemes_of(text).len() <= max_len {
        text
    } else if max_len == 0 {
        Seq::empty()
    } else {
        graphemes_of(text).take(max_len as int).flatten() + marker
    }
}

/// Appends the first `k` of the given cluster strings to `out`, in order.
fn append_clusters(out: &mut String, gs: &Vec<String>, k: usize)
    requires
        k <= gs@.len(),
    ensures
        final(out)@ == old(out)@ + cluster_views(gs@).take(k as int).flatten(),
{
    let ghost vs = cluster_views(gs@);
    let mut i: usize = 0;
    proof {
        assert(vs.take(0).flatten() =~= Seq::<char>::empty());
        assert(old(out)@ + vs.take(0).flatten() =~= old(out)@);
    }
    while i < k
        invariant
            i <= k <= gs@.len(),
            vs == cluster_views(gs@),
            out@ == old(out)@ + vs.take(i as int).flatten(),
        decreases k - i,
    {
        out.append(gs[i].as_str());
        proof {
            broadcast use Seq::lemma_flatten_push;

            assert(vs.take(i + 1) =~= vs.take(i as int).push(vs[i as int]));
            assert(vs[i as int] == gs@[i as int]@);
            assert(old(out)@ + vs.take(i as int).flatten() + gs@[i as int]@ =~= old(out)@
                + vs.take(i + 1).flatten());
        }
        i += 1;
    }
}

/// Truncate and mark strings in a human-friendly way.
///
/// Truncation counts extended grapheme clusters, so a flag emoji or a
/// letter with combining marks is kept or dropped as a whole, never cut
/// in half.
pub trait Ellipse: View<V = Seq<char>> {
    type Output: View<V = Seq<char>>;

    /// Truncate to a length of `len` extended grapheme clusters and place
    /// the given ellipse string at the end when truncating.
    ///
    /// Truncating to a length of 0 will yield the empty element without an
    /// attached ellipsis.
    fn truncate_ellipse_with(&self, len: usize, ellipse: &str) -> (r: Self::Output)
        ensures
            r@ == truncated_view(self@, len as nat, ellipse@),
    ;

    /// Truncate to a length of `len` extended grapheme clusters and add
    /// `...` at the end of the string when truncating.
    ///
    /// Truncating to a length of 0 will yield the empty element without an
    /// attached ellipsis.
    fn truncate_ellipse(&self, len: usize) -> (r: Self::Output)
        ensures
            r@ == truncated_view(self@, len as nat, "..."@),
    {
        self.truncate_ellipse_with(len, "...")
    }
}

impl<'a> Ellipse for &'a str {
    type Output = String;

    fn truncate_ellipse_with(&self, len: usize, ellipse: &str) -> (r: String) {
        let gs = grapheme_clusters(*self);
        if gs.len() <= len {
            return (*self).to_owned();
        }
        if len == 0 {
            return String::new();
        }
        let mut out = String::new();
        append_clusters(&mut out, &gs, len);
        proof {
            assert(Seq::<char>::empty() + cluster_views(gs@).take(len as int).flatten()
                =~= cluster_views(gs@).take(len as int).flatten());
        }
        let ms = grapheme_clusters(ellipse);
        append_clusters(&mut out, &ms, ms.len());
        proof {
            assert(cluster_views(ms@).take(ms@.len() as int) =~= cluster_views(ms@));
        }
        out
    }
}

/// Law: a text that already fits is returned unchanged.
///
/// For every text whose cluster count is at most `max_len`, truncation is
/// the identity, whatever the marker: the input comes back exactly, with
/// no marker attached.
pub proof fn lemma_fits_is_identity(text: Seq<char>, max_len: nat, marker: Seq<char>)
    ensures
        graphemes_of(text).len() <= max_len ==> truncated_view(text, max_len, marker) == text,
{
}

/// Law: truncating a non-empty text to zero clusters yields the empty
/// string, with no marker attached.
pub proof fn lemma_truncate_to_zero_is_empty(text: Seq<char>, marker: Seq<char>)
    ensures
        graphemes_of(text).len() > 0 ==> truncated_view(text, 0, marker) == Seq::<char>::empty(),
{
}

/// Law: a truncated result is assembled from whole clusters only.
///
/// Whenever truncation actually cuts (`0 < max_len` and the text holds
/// more than `max_len` clusters), the result is the concatenation of
/// exactly `max_len` plus the marker's cluster count many whole clusters:
/// the first `max_len` clusters of the text, in order, followed by the
/// clusters of the marker. No cluster is ever cut in half. The premise on
/// the marker — its clusters concatenated give the marker back — holds of
/// every string and is established wherever the marker is segmented.
pub proof fn lemma_truncated_cluster_structure(text: Seq<char>, max_len: nat, marker: Seq<char>)
    ensures
        (0 < max_len < graphemes_of(text).len() && graphemes_of(marker).flatten() == marker)
            ==> truncated_view(text, max_len, marker) == (graphemes_of(text).take(
            max_len as int,
        ) + graphemes_of(marker)).flatten(),
        (0 < max_len < graphemes_of(text).len()) ==> (graphemes_of(text).take(max_len as int)
            + graphemes_of(marker)).len() == max_len + graphemes_of(marker).len(),
{
    if 0 < max_len < graphemes_of(text).len() && graphemes_of(marker).flatten() == marker {
        lemma_flatten_concat(graphemes_of(text).take(max_len as int), graphemes_of(marker));
    }
}

/// Law: the marker always comes out whole at the end of a truncated
/// result.
///
/// Whenever truncation actually cuts, the result ends with the marker,
/// character for character, whatever the marker holds.
pub proof fn lemma_marker_suffix(text: Seq<char>, max_len: nat, marker: Seq<char>)
    ensures
        (0 < max_len < graphemes_of(text).len()) ==> truncated_view(text, max_len, marker).len()
            >= marker.len(),
        (0 < max_len < graphemes_of(text).len()) ==> truncated_view(text, max_len, marker).skip(
            truncated_view(text, max_len, marker).len() - marker.len(),
        ) == marker,
{
    if 0 < max_len < graphemes_of(text).len() {
        let prefix = graphemes_of(text).take(max_len as int).flatten();
        assert((prefix + marker).skip(prefix.len() as int) =~= marker);
    }
}

} // verus!
