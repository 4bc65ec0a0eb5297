use vstd::prelude::*;

verus! {

/// Everything cached for one discrete mirror angle: the mirror's pose and the
/// two point clouds decoded for that angle (empty where the angle has no content).
pub struct AngleCtx<M, P> {
    angle: u32,
    mirror: M,
    led_pixels: Vec<P>,
    emu_pixels: Vec<P>,
}

/// The scene cache: one entry per angle, in ascending angle order, the ground-truth
/// cloud, the concatenations of all per-angle clouds, and the fixed screens.
pub struct Ctx<M, S, P> {
    angle_ctx_map: Vec<AngleCtx<M, P>>,
    all_real_pixels: Vec<P>,
    all_emu_pixels: Vec<P>,
    all_led_pixels: Vec<P>,
    screens: [S; 3],
}

impl<M, P> AngleCtx<M, P> {
    /// The angle this entry belongs to.
    pub closed spec fn spec_angle(&self) -> u32 {
        self.angle
    }

    /// The mirror's pose at this angle.
    pub closed spec fn spec_mirror(&self) -> M {
        self.mirror
    }

    /// The quantized (LED) point cloud of this angle.
    pub closed spec fn spec_led(&self) -> Seq<P> {
        self.led_pixels@
    }

    /// The ideal (emulated) point cloud of this angle.
    pub closed spec fn spec_emu(&self) -> Seq<P> {
        self.emu_pixels@
    }

    pub fn angle(&self) -> (r: u32)
        ensures
            r == self.spec_angle(),
    {
        self.angle
    }

    pub fn mirror(&self) -> (r: &M)
        ensures
            *r == self.spec_mirror(),
    {
        &self.mirror
    }

    pub fn led_pixels(&self) -> (r: &Vec<P>)
        ensures
            r@ == self.spec_led(),
    {
        &self.led_pixels
    }

    pub fn emu_pixels(&self) -> (r: &Vec<P>)
        ensures
            r@ == self.spec_emu(),
    {
        &self.emu_pixels
    }
}

/// Whether `e` holds what decoding gave for its angle: both clouds empty where the
/// angle had no content, otherwise the ideal cloud and the quantized cloud as decoded.
pub open spec fn holds_decoded<M, P>(e: AngleCtx<M, P>, d: Option<(Vec<P>, Vec<P>)>) -> bool {
    match d {
        None => e.spec_emu().len() == 0 && e.spec_led().len() == 0,
        Some((emu, led)) => e.spec_emu() == emu@ && e.spec_led() == led@,
    }
}

/// Whether `e` holds one of the results that `decode_at` may give for angle `a`.
pub open spec fn holds_decoded_by<M, P, DF: Fn(u32) -> Option<(Vec<P>, Vec<P>)>>(
    decode_at: DF,
    a: u32,
    e: AngleCtx<M, P>,
) -> bool {
    exists|d: Option<(Vec<P>, Vec<P>)>| call_ensures(decode_at, (a,), d) && holds_decoded(e, d)
}

/// The ideal clouds of `entries`, concatenated in order.
pub open spec fn concat_emu<M, P>(entries: Seq<AngleCtx<M, P>>) -> Seq<P>
    decreases entries.len(),
{
    if entries.len() == 0 {
        Seq::empty()
    } else {
        concat_emu(entries.drop_last()) + entries.last().spec_emu()
    }
}

/// The quantized clouds of `entries`, concatenated in order.
pub open spec fn concat_led<M, P>(entries: Seq<AngleCtx<M, P>>) -> Seq<P>
    decreases entries.len(),
{
    if entries.len() == 0 {
        Seq::empty()
    } else {
        concat_led(entries.drop_last()) + entries.last().spec_led()
    }
}

/// The sum of the sizes of the ideal clouds of `entries`.
pub open spec fn sum_emu_len<M, P>(entries: Seq<AngleCtx<M, P>>) -> nat
    decreases entries.len(),
{
    if entries.len() == 0 {
        0
    } else {
        sum_emu_len(entries.drop_last()) + entries.last().spec_emu().len()
    }
}

/// The sum of the sizes of the quantized clouds of `entries`.
pub open spec fn sum_led_len<M, P>(entries: Seq<AngleCtx<M, P>>) -> nat
    decreases entries.len(),
{
    if entries.len() == 0 {
        0
    } else {
        sum_led_len(entries.drop_last()) + entries.last().spec_led().len()
    }
}

/// Appends copies of the points of `src` to `dst`.
fn append_points<P: Copy>(dst: &mut Vec<P>, src: &Vec<P>)
    ensures
        final(dst)@ == old(dst)@ + src@,
{
    let mut i: usize = 0;
    while i < src.len()
        invariant
            i <= src.len(),
            dst@ == old(dst)@ + src@.subrange(0, i as int),
        decreases src.len() - i,
    {
        dst.push(src[i]);
        i = i + 1;
        proof {
            assert(src@.subrange(0, i as int) == src@.subrange(0, i - 1 as int).push(src@[i - 1]));
        }
    }
    proof {
        assert(src@.subrange(0, src.len() as int) == src@);
    }
}

impl<M, S, P: Copy> Ctx<M, S, P> {
    /// The per-angle entries, in ascending angle order.
    pub closed spec fn spec_entries(&self) -> Seq<AngleCtx<M, P>> {
        self.angle_ctx_map@
    }

    /// The ground-truth point cloud.
    pub closed spec fn spec_all_real(&self) -> Seq<P> {
        self.all_real_pixels@
    }

    /// All ideal points, over every angle.
    pub closed spec fn spec_all_emu(&self) -> Seq<P> {
        self.all_emu_pixels@
    }

    /// All quantized points, over every angle.
    pub closed spec fn spec_all_led(&self) -> Seq<P> {
        self.all_led_pixels@
    }

    /// The fixed screens.
    pub closed spec fn spec_screens(&self) -> [S; 3] {
        self.screens
    }

    /// The cache is well formed: entry `i` belongs to angle `i`, and the two aggregate
    /// clouds are the per-angle clouds concatenated in ascending angle order.
    pub open spec fn wf(&self) -> bool {
        &&& forall|i: int|
            0 <= i < self.spec_entries().len() ==> #[trigger] self.spec_entries()[i].spec_angle()
                == i
        &&& self.spec_all_emu() == concat_emu(self.spec_entries())
        &&& self.spec_all_led() == concat_led(self.spec_entries())
    }

    /// A cache with no angle yet, holding the ground-truth cloud and the screens.
    pub fn empty(all_real_pixels: Vec<P>, screens: [S; 3]) -> (r: Self)
        ensures
            r.wf(),
            r.spec_entries().len() == 0,
            r.spec_all_real() == all_real_pixels@,
            r.spec_screens() == screens,
    {
        let r = Ctx {
            angle_ctx_map: Vec::new(),
            all_real_pixels,
            all_emu_pixels: Vec::new(),
            all_led_pixels: Vec::new(),
            screens,
        };
        proof {
            assert(r.spec_all_emu() == concat_emu(r.spec_entries()));
            assert(r.spec_all_led() == concat_led(r.spec_entries()));
        }
        r
    }

    /// Adds the entry of the next angle, with its mirror pose and what decoding gave
    /// for it (`None` where the angle had no content), and appends its clouds to the
    /// aggregates.
    pub fn push_angle(&mut self, mirror: M, decoded: Option<(Vec<P>, Vec<P>)>)
        requires
            old(self).wf(),
            old(self).spec_entries().len() < u32::MAX,
        ensures
            final(self).wf(),
            final(self).spec_entries().len() == old(self).spec_entries().len() + 1,
            final(self).spec_entries().drop_last() == old(self).spec_entries(),
            final(self).spec_entries().last().spec_angle() == old(self).spec_entries().len(),
            final(self).spec_entries().last().spec_mirror() == mirror,
            holds_decoded(final(self).spec_entries().last(), decoded),
            final(self).spec_all_real() == old(self).spec_all_real(),
            final(self).spec_screens() == old(self).spec_screens(),
    {
        let angle: u32 = self.angle_ctx_map.len() as u32;
        let entry = match decoded {
            None => AngleCtx { angle, mirror, led_pixels: Vec::new(), emu_pixels: Vec::new() },
            Some((emu_pixels, led_pixels)) => {
                append_points(&mut self.all_emu_pixels, &emu_pixels);
                append_points(&mut self.all_led_pixels, &led_pixels);
                AngleCtx { angle, mirror, led_pixels, emu_pixels }
            },
        };
        let ghost before = self.angle_ctx_map@;
        self.angle_ctx_map.push(entry);
        proof {
            assert(self.spec_entries().drop_last() == before);
            assert(self.spec_all_emu() == concat_emu(self.spec_entries()));
            assert(self.spec_all_led() == concat_led(self.spec_entries()));
        }
    }

    /// Builds the cache for angles `0 .. total_angles`, in ascending order: each angle
    /// gets the pose `mirror_at` gives and the clouds `decode_at` gives (`None` for an
    /// angle without content, which then gets empty clouds).
    pub fn new<MF, DF>(
        total_angles: u32,
        mirror_at: MF,
        decode_at: DF,
        all_real_pixels: Vec<P>,
        screens: [S; 3],
    ) -> (r: Self) where MF: Fn(u32) -> M, DF: Fn(u32) -> Option<(Vec<P>, Vec<P>)>
        requires
            forall|a: u32| a < total_angles ==> call_requires(mirror_at, (a,)),
            forall|a: u32| a < total_angles ==> call_requires(decode_at, (a,)),
        ensures
            r.wf(),
            r.spec_entries().len() == total_angles,
            forall|a: int|
                0 <= a < total_angles ==> call_ensures(
                    mirror_at,
                    (a as u32,),
                    #[trigger] r.spec_entries()[a].spec_mirror(),
                ),
            forall|a: int|
                0 <= a < total_angles ==> holds_decoded_by(
                    decode_at,
                    a as u32,
                    #[trigger] r.spec_entries()[a],
                ),
            r.spec_all_real() == all_real_pixels@,
            r.spec_screens() == screens,
    {
        let mut ctx = Ctx::empty(all_real_pixels, screens);
        let mut angle: u32 = 0;
        while angle < total_angles
            invariant
                angle <= total_angles,
                forall|a: u32| a < total_angles ==> call_requires(mirror_at, (a,)),
                forall|a: u32| a < total_angles ==> call_requires(decode_at, (a,)),
                ctx.wf(),
                ctx.spec_entries().len() == angle,
                forall|a: int|
                    0 <= a < angle ==> call_ensures(
                        mirror_at,
                        (a as u32,),
                        #[trigger] ctx.spec_entries()[a].spec_mirror(),
                    ),
                forall|a: int|
                    0 <= a < angle ==> holds_decoded_by(
                        decode_at,
                        a as u32,
                        #[trigger] ctx.spec_entries()[a],
                    ),
                ctx.spec_all_real() == all_real_pixels@,
                ctx.spec_screens() == screens,
            decreases total_angles - angle,
        {
            let mirror = mirror_at(angle);
            let decoded = decode_at(angle);
            let ghost before = ctx.spec_entries();
            ctx.push_angle(mirror, decoded);
            proof {
                let after = ctx.spec_entries();
                assert forall|a: int| 0 <= a < angle + 1 implies call_ensures(
                    mirror_at,
                    (a as u32,),
                    #[trigger] after[a].spec_mirror(),
                ) by {
                    if a < angle {
                        assert(after[a] == after.drop_last()[a]);
                    }
                }
                assert forall|a: int| 0 <= a < angle + 1 implies holds_decoded_by(
                    decode_at,
                    a as u32,
                    #[trigger] after[a],
                ) by {
                    if a < angle {
                        assert(after[a] == after.drop_last()[a]);
                        assert(after[a] == before[a]);
                    } else {
                        assert(call_ensures(decode_at, (a as u32,), decoded)
                            && holds_decoded(after[a], decoded));
                    }
                }
            }
            angle = angle + 1;
        }
        ctx
    }

    /// The entry of `angle`, or `None` where `angle` is not one of the cached angles.
    pub fn angle_ctx(&self, angle: u32) -> (r: Option<&AngleCtx<M, P>>)
        requires
            self.wf(),
        ensures
            r is Some <==> angle < self.spec_entries().len(),
            r is Some ==> *r.unwrap() == self.spec_entries()[angle as int],
    {
        if (angle as usize) < self.angle_ctx_map.len() {
            Some(&self.angle_ctx_map[angle as usize])
        } else {
            None
        }
    }

    /// The number of cached angles.
    pub fn total_angles(&self) -> (r: usize)
        ensures
            r == self.spec_entries().len(),
    {
        self.angle_ctx_map.len()
    }

    pub fn all_real_pixels(&self) -> (r: &Vec<P>)
        ensures
            r@ == self.spec_all_real(),
    {
        &self.all_real_pixels
    }

    pub fn all_emu_pixels(&self) -> (r: &Vec<P>)
        ensures
            r@ == self.spec_all_emu(),
    {
        &self.all_emu_pixels
    }

    pub fn all_led_pixels(&self) -> (r: &Vec<P>)
        ensures
            r@ == self.spec_all_led(),
    {
        &self.all_led_pixels
    }

    pub fn screens(&self) -> (r: &[S; 3])
        ensures
            *r == self.spec_screens(),
    {
        &self.screens
    }

    /// What a frame shows for a selection: with no angle, no mirror and every
    /// angle's clouds; with an angle, that angle's mirror and its own clouds.
    /// Returns the mirror to draw, the ideal cloud and the quantized cloud.
    pub fn select(&self, angle: Option<u32>) -> (r: (Option<&M>, &Vec<P>, &Vec<P>))
        requires
            self.wf(),
            angle matches Some(a) ==> a < self.spec_entries().len(),
        ensures
            angle is None ==> {
                &&& r.0 is None
                &&& r.1@ == self.spec_all_emu()
                &&& r.2@ == self.spec_all_led()
            },
            angle matches Some(a) ==> {
                let e = self.spec_entries()[a as int];
                &&& r.0 is Some
                &&& *r.0.unwrap() == e.spec_mirror()
                &&& r.1@ == e.spec_emu()
                &&& r.2@ == e.spec_led()
            },
    {
        match angle {
            None => (None, &self.all_emu_pixels, &self.all_led_pixels),
            Some(a) => {
                let e = &self.angle_ctx_map[a as usize];
                (Some(&e.mirror), &e.emu_pixels, &e.led_pixels)
            },
        }
    }
}

/// Each angle's ideal and quantized clouds are no larger than their concatenations.
proof fn lemma_entry_within_concat<M, P>(entries: Seq<AngleCtx<M, P>>, i: int)
    requires
        0 <= i < entries.len(),
    ensures
        entries[i].spec_emu().len() <= concat_emu(entries).len(),
        entries[i].spec_led().len() <= concat_led(entries).len(),
    decreases entries.len(),
{
    if i < entries.len() - 1 {
        lemma_entry_within_concat(entries.drop_last(), i);
        assert(entries.drop_last()[i] == entries[i]);
    }
}

/// Two distinct angles' clouds together are no larger than their concatenations.
proof fn lemma_two_entries_within_concat<M, P>(entries: Seq<AngleCtx<M, P>>, i: int, j: int)
    requires
        0 <= i < entries.len(),
        0 <= j < entries.len(),
        i != j,
    ensures
        entries[i].spec_emu().len() + entries[j].spec_emu().len() <= concat_emu(entries).len(),
        entries[i].spec_led().len() + entries[j].spec_led().len() <= concat_led(entries).len(),
    decreases entries.len(),
{
    let last = entries.len() - 1;
    let rest = entries.drop_last();
    if i < last && j < last {
        lemma_two_entries_within_concat(rest, i, j);
        assert(rest[i] == entries[i] && rest[j] == entries[j]);
    } else if i == last {
        lemma_entry_within_concat(rest, j);
        assert(rest[j] == entries[j]);
    } else {
        lemma_entry_within_concat(rest, i);
        assert(rest[i] == entries[i]);
    }
}

/// The concatenations are as long as the sums of the per-angle sizes.
proof fn lemma_concat_len<M, P>(entries: Seq<AngleCtx<M, P>>)
    ensures
        concat_emu(entries).len() == sum_emu_len(entries),
        concat_led(entries).len() == sum_led_len(entries),
    decreases entries.len(),
{
    if entries.len() > 0 {
        lemma_concat_len(entries.drop_last());
    }
}

/// A well-formed cache of `total_angles` angles has one entry for each angle
/// `0 .. total_angles`, entry `a` belonging to angle `a`, and no other.
pub proof fn lemma_cache_keys<M, S, P: Copy>(ctx: Ctx<M, S, P>, total_angles: u32)
    requires
        ctx.wf(),
        ctx.spec_entries().len() == total_angles,
    ensures
        ctx.spec_entries().map_values(|e: AngleCtx<M, P>| e.spec_angle() as int).to_set()
            == Set::new(|a: int| 0 <= a < total_angles),
        forall|a: int| 0 <= a < total_angles ==> #[trigger] ctx.spec_entries()[a].spec_angle() == a,
{
    let keys = ctx.spec_entries().map_values(|e: AngleCtx<M, P>| e.spec_angle() as int);
    assert forall|a: int| keys.to_set().contains(a) <==> 0 <= a < total_angles by {
        if 0 <= a < total_angles {
            assert(keys[a] == a);
        }
        if keys.to_set().contains(a) {
            let i = choose|i: int| 0 <= i < keys.len() && keys[i] == a;
            assert(keys[i] == ctx.spec_entries()[i].spec_angle());
        }
    }
    assert(keys.to_set() =~= Set::new(|a: int| 0 <= a < total_angles));
}

/// The aggregate clouds are the per-angle clouds concatenated in ascending angle
/// order, so their sizes are the sums of the per-angle sizes.
pub proof fn lemma_aggregate_sizes<M, S, P: Copy>(ctx: Ctx<M, S, P>)
    requires
        ctx.wf(),
    ensures
        ctx.spec_all_emu() == concat_emu(ctx.spec_entries()),
        ctx.spec_all_led() == concat_led(ctx.spec_entries()),
        ctx.spec_all_emu().len() == sum_emu_len(ctx.spec_entries()),
        ctx.spec_all_led().len() == sum_led_len(ctx.spec_entries()),
{
    lemma_concat_len(ctx.spec_entries());
}

/// Selecting one angle shows no more points than selecting none: each of the
/// angle's clouds is no larger than the matching aggregate, and where another angle
/// has points the selection shows strictly fewer.
pub proof fn lemma_selection_no_larger<M, S, P: Copy>(ctx: Ctx<M, S, P>, angle: u32)
    requires
        ctx.wf(),
        angle < ctx.spec_entries().len(),
    ensures
        ctx.spec_entries()[angle as int].spec_emu().len() <= ctx.spec_all_emu().len(),
        ctx.spec_entries()[angle as int].spec_led().len() <= ctx.spec_all_led().len(),
        forall|other: int|
            0 <= other < ctx.spec_entries().len() && other != angle && (
            #[trigger] ctx.spec_entries()[other].spec_emu().len() > 0
                || ctx.spec_entries()[other].spec_led().len() > 0) ==> ctx.spec_entries()[angle as int].spec_emu().len()
                + ctx.spec_entries()[angle as int].spec_led().len() < ctx.spec_all_emu().len()
                + ctx.spec_all_led().len(),
{
    lemma_entry_within_concat(ctx.spec_entries(), angle as int);
    assert forall|other: int|
        0 <= other < ctx.spec_entries().len() && other != angle && (
        #[trigger] ctx.spec_entries()[other].spec_emu().len() > 0
            || ctx.spec_entries()[other].spec_led().len() > 0) implies ctx.spec_entries()[angle as int].spec_emu().len()
            + ctx.spec_entries()[angle as int].spec_led().len() < ctx.spec_all_emu().len()
            + ctx.spec_all_led().len() by {
        lemma_two_entries_within_concat(ctx.spec_entries(), angle as int, other);
    }
}

} // verus!
