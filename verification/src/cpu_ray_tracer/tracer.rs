use vstd::prelude::*;

verus! {

/// The bit of the key mask that is set while E is held (move down).
pub const KEY_E: u8 = 32;

/// The bit of the key mask that is set while Q is held (move up).
pub const KEY_Q: u8 = 16;

/// The bit of the key mask that is set while A is held.
pub const KEY_A: u8 = 8;

/// The bit of the key mask that is set while D is held.
pub const KEY_D: u8 = 4;

/// The bit of the key mask that is set while W is held.
pub const KEY_W: u8 = 2;

/// The bit of the key mask that is set while S is held.
pub const KEY_S: u8 = 1;

/// Whether every bit of `mask` is set in `keys`.
pub open spec fn pressed(keys: u8, mask: u8) -> bool {
    keys & mask == mask
}

/// One when the key is held, zero otherwise.
pub open spec fn held(keys: u8, mask: u8) -> int {
    if pressed(keys, mask) {
        1
    } else {
        0
    }
}

/// A movement in whole steps along each axis; the renderer scales it by
/// the frame time.
#[derive(Clone, Copy, Debug, PartialEq, Eq, Structural)]
pub struct KeyDelta {
    pub x: i8,
    pub y: i8,
    pub z: i8,
}

/// The camera movement the ray tracer's keys ask for (key mask `00EQADWS`):
/// A moves along +x and D along -x, Q up and E down, S along +z and W along
/// -z; opposite keys cancel.
pub fn movement_delta(keys: u8) -> (d: KeyDelta)
    ensures
        d.x == held(keys, KEY_A) - held(keys, KEY_D),
        d.y == held(keys, KEY_Q) - held(keys, KEY_E),
        d.z == held(keys, KEY_S) - held(keys, KEY_W),
{
    let mut x: i8 = 0;
    let mut y: i8 = 0;
    let mut z: i8 = 0;
    if keys & KEY_E == KEY_E {
        y = y - 1;
    }
    if keys & KEY_Q == KEY_Q {
        y = y + 1;
    }
    if keys & KEY_A == KEY_A {
        x = x + 1;
    }
    if keys & KEY_D == KEY_D {
        x = x - 1;
    }
    if keys & KEY_W == KEY_W {
        z = z - 1;
    }
    if keys & KEY_S == KEY_S {
        z = z + 1;
    }
    KeyDelta { x, y, z }
}

/// The bytes of the bands tagged `id`, in the order the bands come.
pub open spec fn band_bytes(bands: Seq<(u8, Vec<u8>)>, id: int) -> Seq<u8>
    decreases bands.len(),
{
    if bands.len() == 0 {
        Seq::empty()
    } else {
        band_bytes(bands.drop_last(), id) + (if bands.last().0 as int == id {
            bands.last().1@
        } else {
            Seq::empty()
        })
    }
}

/// The bytes of the bands tagged from 255 down to `low`, highest tag first.
pub open spec fn bands_from(bands: Seq<(u8, Vec<u8>)>, low: int) -> Seq<u8>
    decreases 256 - low,
{
    if low >= 256 {
        Seq::empty()
    } else {
        bands_from(bands, low + 1) + band_bytes(bands, low)
    }
}

/// The picture that bands rendered by separate workers make: the bands
/// sorted by tag from highest to lowest (bands with equal tags keeping
/// their order), their bytes one after the other.
pub open spec fn joined_bands(bands: Seq<(u8, Vec<u8>)>) -> Seq<u8> {
    bands_from(bands, 0)
}

/// Joins the bands that the render workers returned, each tagged with the
/// worker's number, into one pixel buffer: highest tag first (the workers
/// render the picture from the bottom band upwards), bands with equal tags
/// in the order given.
pub fn join_bands(bands: &Vec<(u8, Vec<u8>)>) -> (pixels: Vec<u8>)
    ensures
        pixels@ == joined_bands(bands@),
{
    let mut pixels: Vec<u8> = Vec::new();
    let mut id: u16 = 256;
    while id > 0
        invariant
            id <= 256,
            pixels@ == bands_from(bands@, id as int),
        decreases id,
    {
        id = id - 1;
        let tag: u8 = id as u8;
        let ghost start = pixels@;
        let mut j: usize = 0;
        while j < bands.len()
            invariant
                j <= bands@.len(),
                tag == id,
                id < 256,
                start == bands_from(bands@, id as int + 1),
                pixels@ == start + band_bytes(bands@.take(j as int), id as int),
            decreases bands@.len() - j,
        {
            let ghost before = pixels@;
            if bands[j].0 == tag {
                let band: &Vec<u8> = &bands[j].1;
                let mut k: usize = 0;
                while k < band.len()
                    invariant
                        k <= band@.len(),
                        pixels@ == before + band@.take(k as int),
                    decreases band@.len() - k,
                {
                    pixels.push(band[k]);
                    k += 1;
                    assert(band@.take(k as int) =~= band@.take(k - 1) + seq![band@[k - 1]]);
                }
                assert(band@.take(band@.len() as int) =~= band@);
            }
            assert(bands@.take(j + 1).drop_last() =~= bands@.take(j as int));
            assert(pixels@ =~= start + band_bytes(bands@.take(j + 1), id as int));
            j += 1;
        }
        assert(bands@.take(bands@.len() as int) =~= bands@);
    }
    pixels
}

/// Whether no two bands carry the same tag.
pub open spec fn distinct_tags(bands: Seq<(u8, Vec<u8>)>) -> bool {
    forall|x: int, y: int| 0 <= x < y < bands.len() ==> #[trigger] bands[x].0 != #[trigger] bands[y].0
}

/// With distinct tags, the bytes tagged `bands[i].0` are those of band `i`.
proof fn band_bytes_of_unique(bands: Seq<(u8, Vec<u8>)>, i: int)
    requires
        distinct_tags(bands),
        0 <= i < bands.len(),
    ensures
        band_bytes(bands, bands[i].0 as int) == bands[i].1@,
    decreases bands.len(),
{
    let id = bands[i].0 as int;
    let rest = bands.drop_last();
    if i == bands.len() - 1 {
        band_bytes_of_absent(rest, id);
        assert(band_bytes(bands, id) =~= bands[i].1@);
    } else {
        assert(rest[i] == bands[i]);
        band_bytes_of_unique(rest, i);
        assert(bands.last().0 != bands[i].0);
        assert(band_bytes(bands, id) =~= bands[i].1@);
    }
}

/// No band carries tag `id`: nothing is tagged `id`.
proof fn band_bytes_of_absent(bands: Seq<(u8, Vec<u8>)>, id: int)
    requires
        forall|x: int| 0 <= x < bands.len() ==> #[trigger] bands[x].0 as int != id,
    ensures
        band_bytes(bands, id) == Seq::<u8>::empty(),
    decreases bands.len(),
{
    if bands.len() > 0 {
        let rest = bands.drop_last();
        assert forall|x: int| 0 <= x < rest.len() implies #[trigger] rest[x].0 as int != id by {
            assert(rest[x] == bands[x]);
        }
        band_bytes_of_absent(rest, id);
        assert(bands[bands.len() - 1].0 as int != id);
        assert(band_bytes(bands, id) =~= Seq::<u8>::empty());
    }
}

/// Equal bytes under every tag from `low` up give equal pictures.
proof fn bands_from_agree(a: Seq<(u8, Vec<u8>)>, b: Seq<(u8, Vec<u8>)>, low: int)
    requires
        forall|id: int| low <= id < 256 ==> #[trigger] band_bytes(a, id) == band_bytes(b, id),
    ensures
        bands_from(a, low) == bands_from(b, low),
    decreases 256 - low,
{
    if low < 256 {
        bands_from_agree(a, b, low + 1);
        assert(band_bytes(a, low) == band_bytes(b, low));
    }
}

/// The picture does not depend on the order in which the workers finish:
/// when the bands carry distinct tags, any rearrangement `b` of them (band
/// `k` of `b` being band `order[k]` of `a`) joins into the same bytes.
pub proof fn join_ignores_arrival_order(
    a: Seq<(u8, Vec<u8>)>,
    b: Seq<(u8, Vec<u8>)>,
    order: Seq<int>,
    inverse: Seq<int>,
)
    requires
        distinct_tags(a),
        b.len() == a.len(),
        order.len() == a.len(),
        inverse.len() == a.len(),
        forall|k: int|
            0 <= k < b.len() ==> 0 <= #[trigger] order[k] < a.len() && b[k] == a[order[k]] && inverse[order[k]]
                == k,
        forall|i: int| 0 <= i < a.len() ==> 0 <= #[trigger] inverse[i] < b.len() && order[inverse[i]] == i,
    ensures
        joined_bands(a) == joined_bands(b),
{
    assert(distinct_tags(b)) by {
        assert forall|x: int, y: int| 0 <= x < y < b.len() implies #[trigger] b[x].0 != #[trigger] b[y].0 by {
            assert(inverse[order[x]] == x && inverse[order[y]] == y);
            if order[x] < order[y] {
                assert(a[order[x]].0 != a[order[y]].0);
            } else {
                assert(a[order[y]].0 != a[order[x]].0);
            }
        }
    }
    assert forall|id: int| 0 <= id < 256 implies #[trigger] band_bytes(a, id) == band_bytes(b, id) by {
        if exists|i: int| 0 <= i < a.len() && a[i].0 as int == id {
            let i = choose|i: int| 0 <= i < a.len() && a[i].0 as int == id;
            band_bytes_of_unique(a, i);
            let k = inverse[i];
            assert(b[k] == a[i]);
            band_bytes_of_unique(b, k);
        } else {
            band_bytes_of_absent(a, id);
            assert forall|x: int| 0 <= x < b.len() implies #[trigger] b[x].0 as int != id by {
                assert(b[x] == a[order[x]]);
            }
            band_bytes_of_absent(b, id);
        }
    }
    bands_from_agree(a, b, 0);
}

} // verus!
