//! A bounded, output-independent store for loaded images.
//!
//! Two caches, each holding at most two entries and evicting the least
//! recently used: decoded images keyed by source path, and scaled pixel
//! buffers keyed by path and output geometry.  The timeline only ever needs
//! the current slide's two images, and two resolutions per path only when
//! outputs differ, so two entries bound memory tightly on the hot path.

use vstd::prelude::*;

use cached::Cached;
use cached::stores::SizedCache;

use crate::image::error::ImageError;
use crate::image::images::{decode_rgba, Image};
use crate::image::scaling::{spec_oversize, spec_scale_output, Filter, RgbaImage, Scaling, MAX_DIM};
use crate::ScaledMode;

verus! {

broadcast use vstd::set::group_set_axioms, vstd::map::group_map_axioms;

/// Number of entries each cache holds before evicting.
pub const CACHE_SIZE: usize = 2;

/// A decoded image as plain parts: RGBA bytes, width, height.
pub type ImageParts = (Vec<u8>, u32, u32);

/// A scaled-buffer cache key: source path, target width, target height.
pub type ScaledKey = (String, i32, i32);

#[verifier::external_type_specification]
#[verifier::external_body]
#[verifier::reject_recursive_types(K)]
#[verifier::reject_recursive_types(V)]
pub struct ExSizedCache<K, V>(SizedCache<K, V>);

/// What the decoded-image cache holds: for each cached path, the RGBA bytes
/// and dimensions decoded from it.
pub uninterp spec fn image_cache_map(c: SizedCache<String, ImageParts>) -> Map<
    Seq<char>,
    (Seq<u8>, u32, u32),
>;

/// The capacity the decoded-image cache was created with.
pub uninterp spec fn image_cache_capacity(c: SizedCache<String, ImageParts>) -> nat;

/// What the scaled-buffer cache holds: for each cached path and output
/// geometry, the ready-to-upload RGB bytes.
pub uninterp spec fn scaled_cache_map(c: SizedCache<ScaledKey, Vec<u8>>) -> Map<
    (Seq<char>, i32, i32),
    Seq<u8>,
>;

/// The capacity the scaled-buffer cache was created with.
pub uninterp spec fn scaled_cache_capacity(c: SizedCache<ScaledKey, Vec<u8>>) -> nat;

/// The key of the scaled-buffer cache's most recently used entry — the
/// front of its recency order — or nothing when the cache is empty.
pub uninterp spec fn scaled_cache_front(c: SizedCache<ScaledKey, Vec<u8>>) -> Option<
    (Seq<char>, i32, i32),
>;

/// Relies on cached's `SizedCache::with_size`: a fresh cache of the given
/// capacity holding nothing.  `with_size` panics on zero, so that is
/// excluded.
#[verifier::external_body]
fn image_cache_new(size: usize) -> (cache: SizedCache<String, ImageParts>)
    requires
        size >= 1,
    ensures
        forall|k: Seq<char>| !image_cache_map(cache).dom().contains(k),
        image_cache_map(cache).dom().finite(),
        image_cache_map(cache).dom().len() == 0,
        image_cache_capacity(cache) == size,
{
    SizedCache::with_size(size)
}

/// Relies on cached's `Cached::cache_get` on a `SizedCache`: returns a copy
/// of the value stored under the key, touching only the recency order.
#[verifier::external_body]
fn image_cache_get(c: &mut SizedCache<String, ImageParts>, key: &String) -> (r: Option<ImageParts>)
    ensures
        image_cache_map(*final(c)) == image_cache_map(*old(c)),
        image_cache_capacity(*final(c)) == image_cache_capacity(*old(c)),
        match r {
            Some(v) => image_cache_map(*old(c)).contains_pair(key@, (v.0@, v.1, v.2)),
            None => !image_cache_map(*old(c)).dom().contains(key@),
        },
{
    c.cache_get(key).cloned()
}

/// Relies on cached's `Cached::cache_set` on a `SizedCache`: stores the
/// value under the key — replacing in place when the key is present,
/// otherwise inserting and, once past capacity, evicting exactly the least
/// recently used other entry.
#[verifier::external_body]
fn image_cache_set(
    c: &mut SizedCache<String, ImageParts>,
    key: String,
    value: ImageParts,
)
    ensures
        image_cache_capacity(*final(c)) == image_cache_capacity(*old(c)),
        image_cache_map(*old(c)).dom().contains(key@) ==> image_cache_map(*final(c))
            == image_cache_map(*old(c)).insert(key@, (value.0@, value.1, value.2)),
        (!image_cache_map(*old(c)).dom().contains(key@) && image_cache_map(*old(c)).dom().len()
            < image_cache_capacity(*old(c))) ==> image_cache_map(*final(c)) == image_cache_map(
            *old(c),
        ).insert(key@, (value.0@, value.1, value.2)),
        (!image_cache_map(*old(c)).dom().contains(key@) && image_cache_map(*old(c)).dom().len()
            >= image_cache_capacity(*old(c))) ==> exists|e: Seq<char>|
            image_cache_map(*old(c)).dom().contains(e) && e != key@ && image_cache_map(*final(c))
                == image_cache_map(*old(c)).remove(e).insert(key@, (value.0@, value.1, value.2)),
{
    c.cache_set(key, value);
}

/// Relies on cached's `SizedCache::with_size`; see [`image_cache_new`].
#[verifier::external_body]
fn scaled_cache_new(size: usize) -> (cache: SizedCache<ScaledKey, Vec<u8>>)
    requires
        size >= 1,
    ensures
        forall|k: (Seq<char>, i32, i32)| !scaled_cache_map(cache).dom().contains(k),
        scaled_cache_map(cache).dom().finite(),
        scaled_cache_map(cache).dom().len() == 0,
        scaled_cache_capacity(cache) == size,
        scaled_cache_front(cache) is None,
{
    SizedCache::with_size(size)
}

/// Relies on cached's `Cached::cache_get`; see [`image_cache_get`].  A hit
/// additionally moves the entry to the front of the recency order; a miss
/// leaves the order untouched.
#[verifier::external_body]
fn scaled_cache_get(c: &mut SizedCache<ScaledKey, Vec<u8>>, key: &ScaledKey) -> (r: Option<Vec<u8>>)
    ensures
        scaled_cache_map(*final(c)) == scaled_cache_map(*old(c)),
        scaled_cache_capacity(*final(c)) == scaled_cache_capacity(*old(c)),
        match r {
            Some(v) => scaled_cache_map(*old(c)).contains_pair((key.0@, key.1, key.2), v@)
                && scaled_cache_front(*final(c)) == Some((key.0@, key.1, key.2)),
            None => !scaled_cache_map(*old(c)).dom().contains((key.0@, key.1, key.2))
                && scaled_cache_front(*final(c)) == scaled_cache_front(*old(c)),
        },
{
    c.cache_get(key).cloned()
}

/// Relies on cached's `Cached::cache_set`; see [`image_cache_set`].  A new
/// key is pushed to the front of the recency order, and the entry an
/// eviction removes is the back of that order — with at least two entries
/// held, never the front.  Replacing a present key's value keeps the order.
#[verifier::external_body]
fn scaled_cache_set(c: &mut SizedCache<ScaledKey, Vec<u8>>, key: ScaledKey, value: Vec<u8>)
    ensures
        scaled_cache_capacity(*final(c)) == scaled_cache_capacity(*old(c)),
        scaled_cache_map(*old(c)).dom().contains((key.0@, key.1, key.2)) ==> scaled_cache_map(
            *final(c),
        ) == scaled_cache_map(*old(c)).insert((key.0@, key.1, key.2), value@)
            && scaled_cache_front(*final(c)) == scaled_cache_front(*old(c)),
        !scaled_cache_map(*old(c)).dom().contains((key.0@, key.1, key.2))
            ==> scaled_cache_front(*final(c)) == Some((key.0@, key.1, key.2)),
        (!scaled_cache_map(*old(c)).dom().contains((key.0@, key.1, key.2)) && scaled_cache_map(
            *old(c),
        ).dom().len() < scaled_cache_capacity(*old(c))) ==> scaled_cache_map(*final(c))
            == scaled_cache_map(*old(c)).insert((key.0@, key.1, key.2), value@),
        (!scaled_cache_map(*old(c)).dom().contains((key.0@, key.1, key.2)) && scaled_cache_map(
            *old(c),
        ).dom().len() >= scaled_cache_capacity(*old(c))) ==> exists|e: (Seq<char>, i32, i32)|
            scaled_cache_map(*old(c)).dom().contains(e) && e != (key.0@, key.1, key.2) && (
            scaled_cache_capacity(*old(c)) >= 2 ==> Some(e) != scaled_cache_front(*old(c)))
                && scaled_cache_map(*final(c)) == scaled_cache_map(*old(c)).remove(e).insert(
                (key.0@, key.1, key.2),
                value@,
            ),
{
    c.cache_set(key, value);
}

/// A scaled-buffer entry is plausible: a tightly packed RGB buffer of its
/// key's geometry.
pub open spec fn valid_scaled(k: (Seq<char>, i32, i32), v: Seq<u8>) -> bool {
    &&& k.1 >= 0
    &&& k.2 >= 0
    &&& v.len() == 3 * k.1 * k.2
}

/// A decoded-image entry is plausible: four bytes per pixel, dimensions in
/// range.
pub open spec fn valid_parts(v: (Seq<u8>, u32, u32)) -> bool {
    &&& v.0.len() == 4 * v.1 * v.2
    &&& 1 <= v.1 <= MAX_DIM
    &&& 1 <= v.2 <= MAX_DIM
}

/// The two bounded caches of decoded and scaled images.
pub struct ResourceLoader {
    last_loaded: SizedCache<String, ImageParts>,
    scaled: SizedCache<ScaledKey, Vec<u8>>,
}

impl ResourceLoader {
    /// The decoded images currently held, by path.
    pub closed spec fn spec_images(&self) -> Map<Seq<char>, (Seq<u8>, u32, u32)> {
        image_cache_map(self.last_loaded)
    }

    /// The scaled buffers currently held, by path and geometry.
    pub closed spec fn spec_scaled(&self) -> Map<(Seq<char>, i32, i32), Seq<u8>> {
        scaled_cache_map(self.scaled)
    }

    /// The most recently used scaled entry's key.
    pub closed spec fn spec_scaled_front(&self) -> Option<(Seq<char>, i32, i32)> {
        scaled_cache_front(self.scaled)
    }

    /// Both caches were created with the fixed capacity and hold at most
    /// that many entries; every decoded entry is a plausible image, and
    /// every scaled entry is a tightly packed RGB buffer of its key's
    /// geometry.
    pub closed spec fn wf(&self) -> bool {
        &&& image_cache_capacity(self.last_loaded) == CACHE_SIZE
        &&& scaled_cache_capacity(self.scaled) == CACHE_SIZE
        &&& image_cache_map(self.last_loaded).dom().finite()
        &&& image_cache_map(self.last_loaded).dom().len() <= CACHE_SIZE
        &&& scaled_cache_map(self.scaled).dom().finite()
        &&& scaled_cache_map(self.scaled).dom().len() <= CACHE_SIZE
        &&& forall|k: Seq<char>|
            image_cache_map(self.last_loaded).dom().contains(k) ==> valid_parts(
                #[trigger] image_cache_map(self.last_loaded)[k],
            )
        &&& forall|k: (Seq<char>, i32, i32)|
            scaled_cache_map(self.scaled).dom().contains(k) ==> valid_scaled(
                k,
                #[trigger] scaled_cache_map(self.scaled)[k],
            )
    }

    /// The caches never hold more than [`CACHE_SIZE`] entries each.
    pub proof fn lemma_bounded(&self)
        requires
            self.wf(),
        ensures
            self.spec_images().dom().len() <= CACHE_SIZE,
            self.spec_scaled().dom().len() <= CACHE_SIZE,
    {
    }

    /// Two empty caches.
    pub fn new() -> (r: ResourceLoader)
        ensures
            r.wf(),
            forall|k: Seq<char>| !r.spec_images().dom().contains(k),
            forall|k: (Seq<char>, i32, i32)| !r.spec_scaled().dom().contains(k),
    {
        ResourceLoader { last_loaded: image_cache_new(CACHE_SIZE), scaled: scaled_cache_new(CACHE_SIZE) }
    }

    /// Loads the scaled RGB buffer for `path` at the given geometry,
    /// decoding and scaling only on a cache miss.
    ///
    /// A hit in the scaled cache returns exactly the cached bytes and
    /// changes no mapping — repeated loads without an intervening eviction
    /// return the same buffer.  On any success the scaled cache maps the
    /// key to the returned buffer (now its most recent entry), and the
    /// returned buffer is the decoded image held for `path`, scaled as
    /// [`spec_scale_output`] says.  Entries that survive a call keep their
    /// values; a failure leaves the scaled cache entirely unchanged and
    /// inserts nothing for this key; and when the image is already decoded
    /// and the geometry is acceptable, success is owed.
    pub fn load(&mut self, path: &String, mode: &ScaledMode, scaling: Scaling, filter: Filter) -> (r:
        Result<Vec<u8>, ImageError>)
        requires
            old(self).wf(),
        ensures
            final(self).wf(),
            r matches Ok(buf) ==> mode.width >= 0 && mode.height >= 0 && buf@.len() == 3
                * mode.width * mode.height,
            old(self).spec_scaled().dom().contains((path@, mode.width, mode.height)) ==> (
            r matches Ok(buf) && buf@ == old(self).spec_scaled()[(path@, mode.width, mode.height)]
                && final(self).spec_scaled() == old(self).spec_scaled()
                && final(self).spec_images() == old(self).spec_images()),
            r matches Ok(buf) ==> final(self).spec_scaled().contains_pair(
                (path@, mode.width, mode.height),
                buf@,
            ) && final(self).spec_scaled_front() == Some((path@, mode.width, mode.height)),
            !old(self).spec_scaled().dom().contains((path@, mode.width, mode.height)) ==> (r
                matches Ok(buf) ==> final(self).spec_images().dom().contains(path@) && buf@
                == spec_scale_output(
                scaling,
                final(self).spec_images()[path@].0,
                final(self).spec_images()[path@].1 as int,
                final(self).spec_images()[path@].2 as int,
                mode.width as int,
                mode.height as int,
                filter,
            )),
            r is Err ==> final(self).spec_scaled() == old(self).spec_scaled() && final(self).spec_scaled_front() == old(self).spec_scaled_front(),
            r matches Err(e) ==> (e matches ImageError::CouldNotDecode(_) || e matches
                ImageError::ResourceLimit(_) || e matches ImageError::Unsupported(_) || e matches
                ImageError::Io(_) || e matches ImageError::Generic(_)),
            forall|k: (Seq<char>, i32, i32)|
                #![auto]
                final(self).spec_scaled().dom().contains(k) && k != (
                    path@,
                    mode.width,
                    mode.height,
                ) ==> old(self).spec_scaled().dom().contains(k) && final(self).spec_scaled()[k]
                    == old(self).spec_scaled()[k],
            forall|k: Seq<char>|
                #![auto]
                final(self).spec_images().dom().contains(k) && k != path@ ==> old(self).spec_images().dom().contains(k) && final(self).spec_images()[k] == old(self).spec_images()[k],
            old(self).spec_scaled_front() matches Some(fk) ==> ((fk != (
                path@,
                mode.width,
                mode.height,
            ) && old(self).spec_scaled().dom().contains(fk)) ==> final(self).spec_scaled().contains_pair(fk, old(self).spec_scaled()[fk])),
            (old(self).spec_images().dom().contains(path@) && mode.width >= 0 && mode.height >= 0
                && !spec_oversize(
                scaling,
                old(self).spec_images()[path@].1 as int,
                old(self).spec_images()[path@].2 as int,
                mode.width as int,
                mode.height as int,
            )) ==> r is Ok,
    {
        let scale_key = (path.clone(), mode.width, mode.height);
        let ghost key_view = (path@, mode.width, mode.height);
        match scaled_cache_get(&mut self.scaled, &scale_key) {
            Some(buf) => {
                return Ok(buf);
            },
            None => {},
        }
        let parts: ImageParts = match image_cache_get(&mut self.last_loaded, path) {
            Some(p) => p,
            None => {
                let img = match decode_rgba(path.as_str()) {
                    Ok(i) => i,
                    Err(e) => {
                        return Err(e);
                    },
                };
                let parts = (img.data, img.width, img.height);
                let ghost pre = image_cache_map(self.last_loaded);
                image_cache_set(
                    &mut self.last_loaded,
                    path.clone(),
                    (clone_bytes(&parts.0), parts.1, parts.2),
                );
                proof {
                    let post = image_cache_map(self.last_loaded);
                    if pre.dom().contains(path@) {
                        assert(post.dom() =~= pre.dom().insert(path@));
                    } else if pre.dom().len() < CACHE_SIZE {
                        assert(post.dom() =~= pre.dom().insert(path@));
                    } else {
                        let e = choose|e: Seq<char>|
                            pre.dom().contains(e) && e != path@ && post == pre.remove(e).insert(
                                path@,
                                (parts.0@, parts.1, parts.2),
                            );
                        assert(post.dom() =~= pre.dom().remove(e).insert(path@));
                    }
                }
                parts
            },
        };
        let rgba = RgbaImage { data: parts.0, width: parts.1, height: parts.2 };
        let img = Image::from_parts(rgba, scaling, filter);
        let buf = match img.process(mode) {
            Ok(b) => b,
            Err(e) => {
                return Err(e);
            },
        };
        let ghost pre = scaled_cache_map(self.scaled);
        scaled_cache_set(&mut self.scaled, scale_key, clone_bytes(&buf));
        proof {
            let post = scaled_cache_map(self.scaled);
            if pre.dom().contains(key_view) {
                assert(post.dom() =~= pre.dom().insert(key_view));
            } else if pre.dom().len() < CACHE_SIZE {
                assert(post.dom() =~= pre.dom().insert(key_view));
            } else {
                let e = choose|e: (Seq<char>, i32, i32)|
                    pre.dom().contains(e) && e != key_view && (scaled_cache_capacity(self.scaled)
                        >= 2 ==> Some(e) != old(self).spec_scaled_front()) && post == pre.remove(
                        e,
                    ).insert(key_view, buf@);
                assert(post.dom() =~= pre.dom().remove(e).insert(key_view));
            }
        }
        Ok(buf)
    }
}

/// A byte-for-byte copy of a buffer.
fn clone_bytes(v: &Vec<u8>) -> (r: Vec<u8>)
    ensures
        r@ == v@,
{
    let mut r: Vec<u8> = Vec::new();
    let mut i: usize = 0;
    while i < v.len()
        invariant
            i <= v@.len(),
            r@ == v@.subrange(0, i as int),
        decreases v@.len() - i,
    {
        r.push(v[i]);
        proof {
            assert(r@ =~= v@.subrange(0, i + 1 as int));
        }
        i = i + 1;
    }
    proof {
        assert(r@ =~= v@);
    }
    r
}

} // verus!
