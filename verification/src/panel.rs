//! The 5x5 LED panel: which syllables spell a time, how word numbers map to
//! positions on the LED chain, and the colour frames sent to the strip.
use vstd::prelude::*;

verus! {

broadcast use {
    vstd::seq_lib::lemma_seq_contains_after_push,
    vstd::seq_lib::lemma_seq_concat_contains_all_elements,
    vstd::seq_lib::lemma_seq_empty_contains_nothing,
};

/// Number of LEDs on the panel.
pub const LED_NUM: usize = 25;

/// An 8-bit RGB colour as sent to the LED chain.
#[derive(Debug, Clone, Copy, PartialEq, Eq, Structural)]
pub struct Rgb {
    pub r: u8,
    pub g: u8,
    pub b: u8,
}

/// An 8-bit HSV colour, as the user sets it in the menu.
#[derive(Debug, Clone, Copy, PartialEq, Eq, Structural)]
pub struct Hsv {
    pub hue: u8,
    pub sat: u8,
    pub val: u8,
}

/// The colour of an LED that is off.
pub open spec fn black() -> Rgb {
    Rgb { r: 0, g: 0, b: 0 }
}

/// What `smart_leds::hsv::hsv2rgb` gives for a hue, saturation and value.
pub uninterp spec fn hsv_to_rgb(hue: u8, sat: u8, val: u8) -> (u8, u8, u8);

/// What the gamma table of `smart_leds::gamma` gives for one channel level.
pub uninterp spec fn gamma_level(level: u8) -> u8;

/// The RGB colour of an HSV colour.
pub open spec fn rgb_of(c: Hsv) -> Rgb {
    let t = hsv_to_rgb(c.hue, c.sat, c.val);
    Rgb { r: t.0, g: t.1, b: t.2 }
}

/// A colour after gamma correction, channel by channel.
pub open spec fn gamma_of(c: Rgb) -> Rgb {
    Rgb { r: gamma_level(c.r), g: gamma_level(c.g), b: gamma_level(c.b) }
}

/// Converts an HSV colour with `smart_leds::hsv::hsv2rgb`. Its contract claims
/// only that the result is the named function of the three components.
#[verifier::external_body]
fn hsv2rgb(c: Hsv) -> (res: Rgb)
    ensures
        (res.r, res.g, res.b) == hsv_to_rgb(c.hue, c.sat, c.val),
{
    let x = smart_leds::hsv::hsv2rgb(smart_leds::hsv::Hsv { hue: c.hue, sat: c.sat, val: c.val });
    Rgb { r: x.r, g: x.g, b: x.b }
}

/// Gamma-corrects a frame with `smart_leds::gamma`. Its contract claims that
/// each colour is mapped channel by channel through one table (the named
/// function), in order, and that the table maps level 0 to 0 (its first entry).
#[verifier::external_body]
fn gamma(frame: &Vec<Rgb>) -> (res: Vec<Rgb>)
    ensures
        res@.len() == frame@.len(),
        forall|i: int|
            #![trigger res@[i]]
            0 <= i < frame@.len() ==> {
                &&& res@[i].r == gamma_level(frame@[i].r)
                &&& res@[i].g == gamma_level(frame@[i].g)
                &&& res@[i].b == gamma_level(frame@[i].b)
            },
        forall|i: int| #![trigger res@[i]] 0 <= i < frame@.len() && frame@[i] == black() ==> res@[i] == black(),
{
    smart_leds::gamma(frame.iter().map(|c| smart_leds::RGB8 { r: c.r, g: c.g, b: c.b }))
        .map(|c| Rgb { r: c.r, g: c.g, b: c.b })
        .collect()
}

/// Position on the LED chain of the syllable numbered `x`, where syllables
/// are numbered from the bottom-left corner upwards, column by column.
pub open spec fn chain_position(x: int) -> int {
    if x == 0 { 4 }
    else if x == 1 { 5 }
    else if x == 2 { 14 }
    else if x == 3 { 15 }
    else if x == 4 { 24 }
    else if x == 5 { 3 }
    else if x == 6 { 6 }
    else if x == 7 { 13 }
    else if x == 8 { 16 }
    else if x == 9 { 23 }
    else if x == 10 { 2 }
    else if x == 11 { 7 }
    else if x == 12 { 12 }
    else if x == 13 { 17 }
    else if x == 14 { 22 }
    else if x == 15 { 1 }
    else if x == 16 { 8 }
    else if x == 17 { 11 }
    else if x == 18 { 18 }
    else if x == 19 { 21 }
    else if x == 20 { 0 }
    else if x == 21 { 9 }
    else if x == 22 { 10 }
    else if x == 23 { 19 }
    else { 20 }
}

/// Maps syllable numbers to positions on the LED chain, one by one.
pub fn remap(leds: Vec<u8>) -> (res: Vec<u8>)
    requires
        forall|i: int| 0 <= i < leds@.len() ==> #[trigger] leds@[i] < LED_NUM,
    ensures
        res@.len() == leds@.len(),
        forall|i: int| 0 <= i < leds@.len() ==> #[trigger] res@[i] == chain_position(leds@[i] as int),
{
    let mapping_from_bl_to_top: [u8; 25] = [
        4, 5, 14, 15, 24, 3, 6, 13, 16, 23, 2, 7, 12, 17, 22, 1, 8, 11, 18, 21, 0, 9, 10, 19, 20,
    ];
    assert(forall|x: int| 0 <= x < 25 ==> #[trigger] mapping_from_bl_to_top@[x] == chain_position(x));
    let mut res: Vec<u8> = Vec::new();
    let mut k: usize = 0;
    while k < leds.len()
        invariant
            k <= leds@.len(),
            res@.len() == k,
            forall|i: int| 0 <= i < leds@.len() ==> #[trigger] leds@[i] < LED_NUM,
            forall|i: int| 0 <= i < k ==> #[trigger] res@[i] == chain_position(leds@[i] as int),
            forall|x: int| 0 <= x < 25 ==> #[trigger] mapping_from_bl_to_top@[x] == chain_position(x),
        decreases leds@.len() - k,
    {
        let x = leds[k];
        res.push(mapping_from_bl_to_top[x as usize]);
        k = k + 1;
    }
    res
}


/// The time the panel shows for `h:m`: minutes are brought to a multiple of
/// five (1-3 down, 4-6 to five, 7-9 up to the next ten, carrying into the
/// hour). Gives the hour, the tens of minutes and the units (0 or 5).
pub open spec fn shown_time(h: int, m: int) -> (int, int, int) {
    let m10 = m / 10;
    let m1 = m % 10;
    if 1 <= m1 <= 3 {
        (h, m10, 0)
    } else if 4 <= m1 <= 6 {
        (h, m10, 5)
    } else if 7 <= m1 {
        if m10 + 1 == 6 { (h + 1, 0, 0) } else { (h, m10 + 1, 0) }
    } else {
        (h, m10, 0)
    }
}

/// Syllables that spell an hour of the 12-hour dial (0 and 12 both read as
/// twelve o'clock); the last one, 14, is the syllable for "o'clock".
pub open spec fn hour_word(h12: int) -> Seq<u8> {
    if h12 == 0 || h12 == 12 { seq![0u8, 5, 14] }
    else if h12 == 1 { seq![1u8, 14] }
    else if h12 == 2 { seq![5u8, 14] }
    else if h12 == 3 { seq![3u8, 14] }
    else if h12 == 4 { seq![4u8, 14] }
    else if h12 == 5 { seq![2u8, 7, 14] }
    else if h12 == 6 { seq![6u8, 7, 14] }
    else if h12 == 7 { seq![8u8, 9, 14] }
    else if h12 == 8 { seq![10u8, 11, 14] }
    else if h12 == 9 { seq![12u8, 13, 14] }
    else if h12 == 10 { seq![0u8, 14] }
    else if h12 == 11 { seq![0u8, 1, 14] }
    else { seq![] }
}

/// Syllables that spell the tens of minutes.
pub open spec fn tens_word(m10: int) -> Seq<u8> {
    if m10 == 1 { seq![22u8] }
    else if m10 == 2 { seq![17u8, 19] }
    else if m10 == 3 { seq![18u8, 19] }
    else if m10 == 4 { seq![20u8, 22] }
    else if m10 == 5 { seq![21u8, 22] }
    else { seq![] }
}

/// Syllables that spell the units of minutes with the word "minutes":
/// "five minutes" or just "minutes".
pub open spec fn units_word(m1: int) -> Seq<u8> {
    if m1 == 5 { seq![23u8, 24] } else { seq![24u8] }
}

/// The syllables lit for `h:m`, in the order they are chosen.
pub open spec fn time_words(h: int, m: int) -> Seq<u8> {
    let (hh, m10, m1) = shown_time(h, m);
    if (hh == 0 || hh == 24) && m10 + m1 == 0 {
        seq![15u8, 16]  // midnight
    } else if hh == 12 && m10 + m1 == 0 {
        seq![16u8, 21]  // noon
    } else {
        let h12 = if hh > 12 { hh - 12 } else { hh };
        hour_word(h12) + if m10 + m1 != 0 { tens_word(m10) + units_word(m1) } else { seq![] }
    }
}

/// Appends the items of `xs` to `v`.
fn push_all(v: &mut Vec<u8>, xs: &[u8])
    ensures
        final(v)@ == old(v)@ + xs@,
{
    let mut k: usize = 0;
    while k < xs.len()
        invariant
            k <= xs@.len(),
            v@ == old(v)@ + xs@.subrange(0, k as int),
        decreases xs@.len() - k,
    {
        v.push(xs[k]);
        k = k + 1;
        assert(xs@.subrange(0, k as int) =~= xs@.subrange(0, k - 1).push(xs@[k - 1]));
    }
    assert(xs@.subrange(0, xs@.len() as int) =~= xs@);
}

/// The shown hour, tens of minutes and units of minutes for `h:m`.
fn round_time(h: u8, m: u8) -> (res: (u8, u8, u8))
    requires
        h < 255 || m < 57 || m > 59,
    ensures
        (res.0 as int, res.1 as int, res.2 as int) == shown_time(h as int, m as int),
{
    let mut h = h;
    let mut m10 = m / 10;
    let mut m1 = m % 10;
    if 1 <= m1 && m1 <= 3 {
        m1 = 0;
    } else if 4 <= m1 && m1 <= 6 {
        m1 = 5;
    } else if 7 <= m1 && m1 <= 9 {
        m1 = 0;
        m10 = m10 + 1;
        if m10 == 6 {
            m10 = 0;
            h = h + 1;
        }
    }
    (h, m10, m1)
}

/// Appends the syllables of an hour of the 12-hour dial.
fn push_hour_word(leds: &mut Vec<u8>, h12: u8)
    ensures
        final(leds)@ == old(leds)@ + hour_word(h12 as int),
{
    if h12 == 0 || h12 == 12 { push_all(leds, &[0, 5, 14]); }
    else if h12 == 1 { push_all(leds, &[1, 14]); }
    else if h12 == 2 { push_all(leds, &[5, 14]); }
    else if h12 == 3 { push_all(leds, &[3, 14]); }
    else if h12 == 4 { push_all(leds, &[4, 14]); }
    else if h12 == 5 { push_all(leds, &[2, 7, 14]); }
    else if h12 == 6 { push_all(leds, &[6, 7, 14]); }
    else if h12 == 7 { push_all(leds, &[8, 9, 14]); }
    else if h12 == 8 { push_all(leds, &[10, 11, 14]); }
    else if h12 == 9 { push_all(leds, &[12, 13, 14]); }
    else if h12 == 10 { push_all(leds, &[0, 14]); }
    else if h12 == 11 { push_all(leds, &[0, 1, 14]); }
    else { assert(old(leds)@ + hour_word(h12 as int) =~= old(leds)@); }
}

/// Appends the syllables of the minutes.
fn push_minute_words(leds: &mut Vec<u8>, m10: u8, m1: u8)
    ensures
        final(leds)@ == old(leds)@ + tens_word(m10 as int) + units_word(m1 as int),
{
    if m10 == 1 { push_all(leds, &[22]); }
    else if m10 == 2 { push_all(leds, &[17, 19]); }
    else if m10 == 3 { push_all(leds, &[18, 19]); }
    else if m10 == 4 { push_all(leds, &[20, 22]); }
    else if m10 == 5 { push_all(leds, &[21, 22]); }
    else { assert(old(leds)@ + tens_word(m10 as int) =~= old(leds)@); }
    if m1 == 5 {
        push_all(leds, &[23, 24]);
    } else {
        push_all(leds, &[24]);
    }
}

/// The syllables to light for the time `h:m` (hour and minute of the day).
pub fn time_leds(h: u8, m: u8) -> (leds: Vec<u8>)
    requires
        h < 255 || m < 57 || m > 59,
    ensures
        leds@ == time_words(h as int, m as int),
{
    let (hh, m10, m1) = round_time(h, m);
    let mut leds: Vec<u8> = Vec::new();
    if (hh == 0 || hh == 24) && m10 + m1 == 0 {
        push_all(&mut leds, &[15, 16]);
        return leds;
    }
    if hh == 12 && m10 + m1 == 0 {
        push_all(&mut leds, &[16, 21]);
        return leds;
    }
    let h12 = if hh > 12 { hh - 12 } else { hh };
    push_hour_word(&mut leds, h12);
    if m10 + m1 != 0 {
        push_minute_words(&mut leds, m10, m1);
    } else {
        assert(leds@ + seq![] =~= leds@);
    }
    assert(leds@ =~= time_words(h as int, m as int)) by {
        assert(Seq::<u8>::empty() + hour_word(h12 as int) =~= hour_word(h12 as int));
    }
    leds
}

/// Every syllable named for any time is on the panel.
pub proof fn lemma_time_words_on_panel(h: int, m: int)
    ensures
        forall|i: int| 0 <= i < time_words(h, m).len() ==> #[trigger] time_words(h, m)[i] < LED_NUM,
{
    let (hh, m10, m1) = shown_time(h, m);
    let h12 = if hh > 12 { hh - 12 } else { hh };
    let hw = hour_word(h12);
    let tw = tens_word(m10);
    let uw = units_word(m1);
    assert(forall|i: int| 0 <= i < hw.len() ==> #[trigger] hw[i] < 25);
    assert(forall|i: int| 0 <= i < tw.len() ==> #[trigger] tw[i] < 25);
    assert(forall|i: int| 0 <= i < uw.len() ==> #[trigger] uw[i] < 25);
    let mw = tw + uw;
    assert(forall|i: int| 0 <= i < mw.len() ==> #[trigger] mw[i] < 25) by {
        assert forall|i: int| 0 <= i < mw.len() implies #[trigger] mw[i] < 25 by {
            if i < tw.len() { assert(mw[i] == tw[i]); } else { assert(mw[i] == uw[i - tw.len()]); }
        }
    }
    let tail: Seq<u8> = if m10 + m1 != 0 { mw } else { seq![] };
    assert forall|i: int| 0 <= i < (hw + tail).len() implies #[trigger] (hw + tail)[i] < 25 by {
        if i < hw.len() { assert((hw + tail)[i] == hw[i]); } else { assert((hw + tail)[i] == tail[i - hw.len()]); }
    }
}

/// Positions on the LED chain of a list of syllables.
pub open spec fn chain_positions(words: Seq<u8>) -> Seq<u8> {
    words.map_values(|x: u8| chain_position(x as int) as u8)
}

/// The frame sent to the strip when the syllables `words` are lit in `color`:
/// gamma-corrected colour where lit, off elsewhere.
pub open spec fn lit_frame(words: Seq<u8>, color: Rgb) -> Seq<Rgb> {
    Seq::new(
        LED_NUM as nat,
        |i: int| if chain_positions(words).contains(i as u8) { gamma_of(color) } else { black() },
    )
}

/// Hue of the `k`-th step of the welcome animation.
pub open spec fn welcome_hue(k: int) -> u8 {
    ((10 * k) % 256) as u8
}

/// Frame `k` (below 25) of the welcome animation: the LED at chain position
/// `k` alone, at half brightness, its hue stepping round the colour wheel.
pub open spec fn welcome_frame(k: int) -> Seq<Rgb> {
    Seq::new(
        LED_NUM as nat,
        |i: int|
            if i == k {
                gamma_of(rgb_of(Hsv { hue: welcome_hue(k), sat: 255, val: 128 }))
            } else {
                black()
            },
    )
}

/// Last frame of the welcome animation: every LED at full brightness, the
/// hues continuing round the wheel from where the animation stopped.
pub open spec fn rainbow_frame() -> Seq<Rgb> {
    Seq::new(
        LED_NUM as nat,
        |i: int| gamma_of(rgb_of(Hsv { hue: welcome_hue(25 + i), sat: 255, val: 255 })),
    )
}

/// Every LED in the same colour, gamma-corrected.
pub open spec fn full_frame(color: Rgb) -> Seq<Rgb> {
    Seq::new(LED_NUM as nat, |i: int| gamma_of(color))
}

/// Every LED off.
pub open spec fn dark_frame() -> Seq<Rgb> {
    Seq::new(LED_NUM as nat, |i: int| black())
}

/// A frame with every LED off.
fn dark_data() -> (data: Vec<Rgb>)
    ensures
        data@ == dark_frame(),
{
    let mut data: Vec<Rgb> = Vec::new();
    let mut k: usize = 0;
    while k < LED_NUM
        invariant
            k <= LED_NUM,
            data@.len() == k,
            forall|i: int| 0 <= i < k ==> #[trigger] data@[i] == black(),
        decreases LED_NUM - k,
    {
        data.push(Rgb { r: 0, g: 0, b: 0 });
        k = k + 1;
    }
    assert(data@ =~= dark_frame());
    data
}

/// Every LED in `color`, gamma-corrected.
fn full_data(color: Hsv) -> (out: Vec<Rgb>)
    ensures
        out@ == full_frame(rgb_of(color)),
{
    let mut data: Vec<Rgb> = Vec::new();
    let led_rgb = hsv2rgb(color);
    let mut k: usize = 0;
    while k < LED_NUM
        invariant
            k <= LED_NUM,
            data@.len() == k,
            led_rgb == rgb_of(color),
            forall|i: int| 0 <= i < k ==> #[trigger] data@[i] == led_rgb,
        decreases LED_NUM - k,
    {
        data.push(led_rgb);
        k = k + 1;
    }
    let out = gamma(&data);
    assert(out@ =~= full_frame(rgb_of(color)));
    out
}

/// The LED strip with the frame last sent to it. `device` is the driver
/// that the frames are written to.
pub struct Sleds<D> {
    pub device: D,
    frame: Vec<Rgb>,
}

impl<D> View for Sleds<D> {
    type V = Seq<Rgb>;

    /// The frame last sent to the strip, one colour per chain position.
    closed spec fn view(&self) -> Seq<Rgb> {
        self.frame@
    }
}

impl<D> Sleds<D> {
    /// The driver the frames are written to.
    pub closed spec fn driver(&self) -> D {
        self.device
    }

    /// A strip driven by `device`, nothing shown yet.
    pub fn new(device: D) -> (s: Self)
        ensures
            s.driver() == device,
            s@ == dark_frame(),
    {
        Sleds { device, frame: dark_data() }
    }

    /// The frame last sent to the strip.
    pub fn frame(&self) -> (f: &Vec<Rgb>)
        ensures
            f@ == self@,
    {
        &self.frame
    }

    /// Lights the syllables `leds` in `color` and nothing else.
    fn show_leds(&mut self, leds: Vec<u8>, color: Hsv)
        requires
            forall|i: int| 0 <= i < leds@.len() ==> #[trigger] leds@[i] < LED_NUM,
        ensures
            final(self).driver() == old(self).driver(),
            final(self)@ == lit_frame(leds@, rgb_of(color)),
    {
        let ghost words = leds@;
        let leds = remap(leds);
        assert(leds@ =~= chain_positions(words)) by {
            assert forall|i: int| 0 <= i < words.len() implies #[trigger] chain_position(words[i] as int) < 25 by {}
        }
        let mut data = dark_data();
        let led_rgb = hsv2rgb(color);
        let mut k: usize = 0;
        while k < leds.len()
            invariant
                k <= leds@.len(),
                leds@ == chain_positions(words),
                data@.len() == LED_NUM,
                led_rgb == rgb_of(color),
                forall|i: int| 0 <= i < leds@.len() ==> #[trigger] leds@[i] < LED_NUM,
                forall|i: int|
                    0 <= i < LED_NUM ==> #[trigger] data@[i] == if leds@.subrange(0, k as int).contains(i as u8) {
                        led_rgb
                    } else {
                        black()
                    },
            decreases leds@.len() - k,
        {
            let l = leds[k];
            data.set(l as usize, led_rgb);
            assert forall|i: int| 0 <= i < LED_NUM implies #[trigger] leds@.subrange(0, k + 1).contains(i as u8)
                == (leds@.subrange(0, k as int).contains(i as u8) || i == l) by {
                assert(leds@.subrange(0, k + 1) =~= leds@.subrange(0, k as int).push(l));
            }
            k = k + 1;
        }
        assert(leds@.subrange(0, leds@.len() as int) =~= leds@);
        let out = gamma(&data);
        assert(out@ =~= lit_frame(words, rgb_of(color)));
        self.frame = out;
    }

    /// Shows the time `h:m` in words, in `color`.
    pub fn show_time(&mut self, h: u8, m: u8, color: Hsv)
        requires
            h < 255 || m < 57 || m > 59,
        ensures
            final(self).driver() == old(self).driver(),
            final(self)@ == lit_frame(time_words(h as int, m as int), rgb_of(color)),
    {
        let leds = time_leds(h, m);
        proof {
            lemma_time_words_on_panel(h as int, m as int);
        }
        self.show_leds(leds, color);
    }

    /// Lights every LED in `color`.
    pub fn turn_on_all(&mut self, color: Hsv)
        ensures
            final(self).driver() == old(self).driver(),
            final(self)@ == full_frame(rgb_of(color)),
    {
        self.frame = full_data(color);
    }

    /// The welcome animation: one LED after another along the chain, each a
    /// step further round the colour wheel, then all of them at once, then
    /// every LED in the stored colour `color`. Gives the frames in the order
    /// they are to be shown; the strip is left on the last one.
    pub fn welcome(&mut self, color: Hsv) -> (frames: Vec<Vec<Rgb>>)
        ensures
            final(self).driver() == old(self).driver(),
            frames@.len() == LED_NUM + 2,
            forall|k: int| 0 <= k < LED_NUM ==> #[trigger] frames@[k]@ == welcome_frame(k),
            frames@[LED_NUM as int]@ == rainbow_frame(),
            frames@[LED_NUM + 1]@ == full_frame(rgb_of(color)),
            final(self)@ == full_frame(rgb_of(color)),
    {
        let mut frames: Vec<Vec<Rgb>> = Vec::new();
        let mut hue: u16 = 0;
        let mut i: usize = 0;
        while i < LED_NUM
            invariant
                i <= LED_NUM,
                hue == (10 * i) % 256,
                frames@.len() == i,
                forall|k: int| 0 <= k < i ==> #[trigger] frames@[k]@ == welcome_frame(k),
            decreases LED_NUM - i,
        {
            let mut data = dark_data();
            let color = hsv2rgb(Hsv { hue: hue as u8, sat: 255, val: 128 });
            data.set(i, color);
            let out = gamma(&data);
            assert(out@ =~= welcome_frame(i as int));
            frames.push(out);
            hue = (hue + 256 / (LED_NUM as u16)) % 256;
            i = i + 1;
        }
        let mut data: Vec<Rgb> = Vec::new();
        let mut i: usize = 0;
        while i < LED_NUM
            invariant
                i <= LED_NUM,
                hue == (10 * (25 + i)) % 256,
                data@.len() == i,
                frames@.len() == LED_NUM,
                forall|k: int| 0 <= k < LED_NUM ==> #[trigger] frames@[k]@ == welcome_frame(k),
                forall|k: int|
                    0 <= k < i ==> #[trigger] data@[k] == rgb_of(
                        Hsv { hue: welcome_hue(25 + k), sat: 255, val: 255 },
                    ),
            decreases LED_NUM - i,
        {
            let color = hsv2rgb(Hsv { hue: hue as u8, sat: 255, val: 255 });
            data.push(color);
            hue = (hue + 256 / (LED_NUM as u16)) % 256;
            i = i + 1;
        }
        let out = gamma(&data);
        assert(out@ =~= rainbow_frame());
        frames.push(out);
        frames.push(full_data(color));
        self.frame = full_data(color);
        frames
    }
}

/// The syllable number at a chain position (the inverse of `chain_position`).
pub open spec fn syllable_at(p: int) -> int {
    if p == 4 { 0 }
    else if p == 5 { 1 }
    else if p == 14 { 2 }
    else if p == 15 { 3 }
    else if p == 24 { 4 }
    else if p == 3 { 5 }
    else if p == 6 { 6 }
    else if p == 13 { 7 }
    else if p == 16 { 8 }
    else if p == 23 { 9 }
    else if p == 2 { 10 }
    else if p == 7 { 11 }
    else if p == 12 { 12 }
    else if p == 17 { 13 }
    else if p == 22 { 14 }
    else if p == 1 { 15 }
    else if p == 8 { 16 }
    else if p == 11 { 17 }
    else if p == 18 { 18 }
    else if p == 21 { 19 }
    else if p == 0 { 20 }
    else if p == 9 { 21 }
    else if p == 10 { 22 }
    else if p == 19 { 23 }
    else { 24 }
}

/// The wiring map is a permutation of the panel: every syllable has its own
/// LED on the chain, and every LED carries one syllable.
pub proof fn lemma_chain_position_is_permutation()
    ensures
        forall|x: int| 0 <= x < LED_NUM ==> 0 <= #[trigger] chain_position(x) < LED_NUM,
        forall|x: int| 0 <= x < LED_NUM ==> syllable_at(#[trigger] chain_position(x)) == x,
        forall|p: int| 0 <= p < LED_NUM ==> chain_position(#[trigger] syllable_at(p)) == p,
        forall|x: int, y: int|
            0 <= x < LED_NUM && 0 <= y < LED_NUM && x != y ==> #[trigger] chain_position(x)
                != #[trigger] chain_position(y),
{
}

/// The panel is never more than three minutes off: the shown time is a
/// multiple of five minutes within three minutes of `h:m`, and a carry into
/// hour 24 lands exactly on the hour (read as midnight).
pub proof fn lemma_shown_time_accuracy(h: int, m: int)
    requires
        0 <= h < 24,
        0 <= m < 60,
    ensures
        ({
            let (hh, m10, m1) = shown_time(h, m);
            &&& 0 <= hh <= 24
            &&& 0 <= m10 <= 5
            &&& m1 == 0 || m1 == 5
            &&& hh == 24 ==> m10 == 0 && m1 == 0
            &&& -3 <= (hh * 60 + m10 * 10 + m1) - (h * 60 + m) <= 3
        }),
{
}

/// What the panel reads for `h:m` on its 12-hour dial: -1 for midnight,
/// otherwise the shown minutes past twelve o'clock (noon reads 0).
pub open spec fn dial_reading(h: int, m: int) -> int {
    let (hh, m10, m1) = shown_time(h, m);
    let t = hh * 60 + m10 * 10 + m1;
    if t % 1440 == 0 { -1 } else { t % 720 }
}

/// Reads the dial back from the set of lit syllables.
pub open spec fn read_words(s: Seq<u8>) -> int {
    if !s.contains(14) {
        if s.contains(15) { -1 } else { 0 }
    } else {
        let h12: int = if s.contains(0) {
            if s.contains(5) { 0 } else if s.contains(1) { 11 } else { 10 }
        } else if s.contains(1) { 1 }
        else if s.contains(5) { 2 }
        else if s.contains(3) { 3 }
        else if s.contains(4) { 4 }
        else if s.contains(2) { 5 }
        else if s.contains(6) { 6 }
        else if s.contains(8) { 7 }
        else if s.contains(10) { 8 }
        else { 9 };
        let tens: int = if s.contains(17) { 2 }
        else if s.contains(18) { 3 }
        else if s.contains(20) { 4 }
        else if s.contains(21) { 5 }
        else if s.contains(22) { 1 }
        else { 0 };
        let units: int = if s.contains(23) { 5 } else { 0 };
        h12 * 60 + tens * 10 + units
    }
}

/// Reading back an hour word followed by minute syllables.
proof fn lemma_read_hour_word(h12: int, tail: Seq<u8>)
    requires
        0 <= h12 <= 12,
        forall|i: int| 0 <= i < tail.len() ==> #[trigger] tail[i] >= 17,
    ensures
        ({
            let s = hour_word(h12) + tail;
            let t = tail;
            read_words(s) == (h12 % 12) * 60 + (if t.contains(17) { 2 }
                else if t.contains(18) { 3 }
                else if t.contains(20) { 4 }
                else if t.contains(21) { 5 }
                else if t.contains(22) { 1 }
                else { 0int }) * 10 + (if t.contains(23) { 5 } else { 0int })
        }),
{
    let hw = hour_word(h12);
    assert forall|x: u8| x <= 14 implies !#[trigger] tail.contains(x) by {
        if tail.contains(x) {
            let i = choose|i: int| 0 <= i < tail.len() && tail[i] == x;
            assert(tail[i] >= 17);
        }
    }
    assert forall|x: u8| x >= 17 implies !#[trigger] hw.contains(x) by {
        if hw.contains(x) {
            let i = choose|i: int| 0 <= i < hw.len() && hw[i] == x;
        }
    }
    assert((hw + tail).contains(14));
}

/// The minute syllables read back as the tens and units they spell.
proof fn lemma_read_minute_words(m10: int, m1: int)
    requires
        0 <= m10 <= 5,
        m1 == 0 || m1 == 5,
        m10 + m1 != 0,
    ensures
        forall|i: int| 0 <= i < (tens_word(m10) + units_word(m1)).len() ==> #[trigger] (tens_word(m10) + units_word(m1))[i] >= 17,
        ({
            let t = tens_word(m10) + units_word(m1);
            (if t.contains(17) { 2 }
                else if t.contains(18) { 3 }
                else if t.contains(20) { 4 }
                else if t.contains(21) { 5 }
                else if t.contains(22) { 1 }
                else { 0int }) == m10
            && (if t.contains(23) { 5 } else { 0int }) == m1
        }),
{
    let tw = tens_word(m10);
    let uw = units_word(m1);
    let t = tw + uw;
    assert forall|i: int| 0 <= i < t.len() implies #[trigger] t[i] >= 17 by {
        if i < tw.len() { assert(t[i] == tw[i]); } else { assert(t[i] == uw[i - tw.len()]); }
    }
}

/// How the shown minutes of the day fall on the 12-hour dial.
proof fn lemma_dial_arithmetic(hh: int, m10: int, m1: int)
    requires
        0 <= hh <= 24,
        0 <= m10 <= 5,
        m1 == 0 || m1 == 5,
        hh == 24 ==> m10 == 0 && m1 == 0,
    ensures
        ({
            let t = hh * 60 + m10 * 10 + m1;
            let h12 = if hh > 12 { hh - 12 } else { hh };
            &&& (hh == 0 || hh == 24) && m10 + m1 == 0 ==> t % 1440 == 0
            &&& hh == 12 && m10 + m1 == 0 ==> t % 1440 != 0 && t % 720 == 0
            &&& !((hh == 0 || hh == 24) && m10 + m1 == 0) && !(hh == 12 && m10 + m1 == 0) ==> {
                &&& t % 1440 != 0
                &&& t % 720 == (h12 % 12) * 60 + m10 * 10 + m1
            }
        }),
{
}

/// Reading the lit syllables back gives the dial reading of the time shown.
#[verifier::rlimit(30)]
proof fn lemma_read_time_words(h: int, m: int)
    requires
        0 <= h < 24,
        0 <= m < 60,
    ensures
        read_words(time_words(h, m)) == dial_reading(h, m),
{
    lemma_shown_time_accuracy(h, m);
    let (hh, m10, m1) = shown_time(h, m);
    lemma_dial_arithmetic(hh, m10, m1);
    if (hh == 0 || hh == 24) && m10 + m1 == 0 {
        assert(time_words(h, m) == seq![15u8, 16]);
        assert(!seq![15u8, 16].contains(14));
        assert(seq![15u8, 16].contains(15));
    } else if hh == 12 && m10 + m1 == 0 {
        assert(time_words(h, m) == seq![16u8, 21]);
        assert(!seq![16u8, 21].contains(14));
        assert(!seq![16u8, 21].contains(15));
    } else {
        let h12 = if hh > 12 { hh - 12 } else { hh };
        if m10 + m1 != 0 {
            let tail = tens_word(m10) + units_word(m1);
            assert(time_words(h, m) == hour_word(h12) + tail);
            lemma_read_minute_words(m10, m1);
            lemma_read_hour_word(h12, tail);
        } else {
            let e: Seq<u8> = seq![];
            assert(time_words(h, m) == hour_word(h12) + e);
            assert(forall|x: u8| !e.contains(x));
            lemma_read_hour_word(h12, e);
        }
    }
}

/// Which words two times light depends only on their dial reading.
proof fn lemma_time_words_by_reading(h1: int, m1: int, h2: int, m2: int)
    requires
        0 <= h1 < 24,
        0 <= m1 < 60,
        0 <= h2 < 24,
        0 <= m2 < 60,
        dial_reading(h1, m1) == dial_reading(h2, m2),
    ensures
        time_words(h1, m1) == time_words(h2, m2),
{
    lemma_shown_time_accuracy(h1, m1);
    lemma_shown_time_accuracy(h2, m2);
    let (a, b, c) = shown_time(h1, m1);
    let (x, y, z) = shown_time(h2, m2);
    lemma_dial_arithmetic(a, b, c);
    lemma_dial_arithmetic(x, y, z);
    let ha = if a > 12 { a - 12 } else { a };
    let hx = if x > 12 { x - 12 } else { x };
    if !((a == 0 || a == 24) && b + c == 0) && !(a == 12 && b + c == 0) {
        assert(!((x == 0 || x == 24) && y + z == 0) && !(x == 12 && y + z == 0));
        assert((ha % 12) * 60 + b * 10 + c == (hx % 12) * 60 + y * 10 + z);
        assert(b == y && c == z && ha % 12 == hx % 12);
        assert(hour_word(ha) == hour_word(hx));
    }
}

/// The panel never shows two dial readings the same way: two times light
/// the same set of syllables exactly when they read the same on the 12-hour
/// dial (with midnight and noon told apart), and then they light the very
/// same syllables in the same order.
pub proof fn lemma_time_words_unambiguous(h1: int, m1: int, h2: int, m2: int)
    requires
        0 <= h1 < 24,
        0 <= m1 < 60,
        0 <= h2 < 24,
        0 <= m2 < 60,
    ensures
        (forall|x: u8| #[trigger] time_words(h1, m1).contains(x) == time_words(h2, m2).contains(x))
            <==> dial_reading(h1, m1) == dial_reading(h2, m2),
        dial_reading(h1, m1) == dial_reading(h2, m2) ==> time_words(h1, m1) == time_words(h2, m2),
{
    lemma_read_time_words(h1, m1);
    lemma_read_time_words(h2, m2);
    let s1 = time_words(h1, m1);
    let s2 = time_words(h2, m2);
    if forall|x: u8| #[trigger] s1.contains(x) == s2.contains(x) {
        assert(read_words(s1) == read_words(s2));
    }
    if dial_reading(h1, m1) == dial_reading(h2, m2) {
        lemma_time_words_by_reading(h1, m1, h2, m2);
    }
}

/// The Hangul syllable printed on the panel at syllable number `x`
/// (numbered from the bottom-left corner upwards, column by column).
pub open spec fn syllable(x: int) -> char {
    if x == 0 { '열' }
    else if x == 1 { '한' }
    else if x == 2 { '다' }
    else if x == 3 { '세' }
    else if x == 4 { '네' }
    else if x == 5 { '두' }
    else if x == 6 { '여' }
    else if x == 7 { '섯' }
    else if x == 8 { '일' }
    else if x == 9 { '곱' }
    else if x == 10 { '여' }
    else if x == 11 { '덟' }
    else if x == 12 { '아' }
    else if x == 13 { '홉' }
    else if x == 14 { '시' }
    else if x == 15 { '자' }
    else if x == 16 { '정' }
    else if x == 17 { '이' }
    else if x == 18 { '삼' }
    else if x == 19 { '십' }
    else if x == 20 { '사' }
    else if x == 21 { '오' }
    else if x == 22 { '십' }
    else if x == 23 { '오' }
    else { '분' }
}

/// The text that lit syllables spell, in order.
pub open spec fn spelled(s: Seq<u8>) -> Seq<char> {
    s.map_values(|x: u8| syllable(x as int))
}

/// A native Korean numeral as used for hours (1 to 12): 한, 두, 세, 네,
/// 다섯, 여섯, 일곱, 여덟, 아홉, 열, and 열 followed by the units above ten.
pub open spec fn native_numeral(n: int) -> Seq<char>
    decreases n,
{
    if n > 10 && n <= 12 {
        seq!['열'] + native_numeral(n - 10)
    } else if n == 10 {
        seq!['열']
    } else if n == 1 { seq!['한'] }
    else if n == 2 { seq!['두'] }
    else if n == 3 { seq!['세'] }
    else if n == 4 { seq!['네'] }
    else if n == 5 { seq!['다', '섯'] }
    else if n == 6 { seq!['여', '섯'] }
    else if n == 7 { seq!['일', '곱'] }
    else if n == 8 { seq!['여', '덟'] }
    else { seq!['아', '홉'] }
}

/// A Sino-Korean digit (2 to 5) as used for minutes: 이, 삼, 사, 오.
pub open spec fn sino_digit(n: int) -> Seq<char> {
    if n == 2 { seq!['이'] }
    else if n == 3 { seq!['삼'] }
    else if n == 4 { seq!['사'] }
    else { seq!['오'] }
}

/// How a time reads in Korean on the panel, from its shown hour, tens and
/// units of minutes: "자정" (midnight), "정오" (noon), otherwise the hour on
/// the 12-hour dial with 시, then the tens of minutes (십, 이십, ...), the
/// five (오) and 분, the minutes left out on the hour.
pub open spec fn time_phrase(h: int, m: int) -> Seq<char> {
    let (hh, m10, m1) = shown_time(h, m);
    if (hh == 0 || hh == 24) && m10 + m1 == 0 {
        seq!['자', '정']
    } else if hh == 12 && m10 + m1 == 0 {
        seq!['정', '오']
    } else {
        let h12 = if hh > 12 { hh - 12 } else if hh == 0 { 12 } else { hh };
        let tens: Seq<char> = if m10 == 0 { seq![] } else if m10 == 1 { seq!['십'] } else {
            sino_digit(m10) + seq!['십']
        };
        let five: Seq<char> = if m1 == 5 { seq!['오'] } else { seq![] };
        native_numeral(h12) + seq!['시'] + if m10 + m1 != 0 { tens + five + seq!['분'] } else { seq![] }
    }
}

proof fn lemma_spelled_add(a: Seq<u8>, b: Seq<u8>)
    ensures
        spelled(a + b) == spelled(a) + spelled(b),
{
    assert(spelled(a + b) =~= spelled(a) + spelled(b));
}

/// Each hour word spells its hour in full.
proof fn lemma_hour_word_spelled(h12: int)
    requires
        0 <= h12 <= 12,
    ensures
        spelled(hour_word(h12)) == native_numeral(if h12 == 0 { 12 } else { h12 }) + seq!['시'],
{
    let w = hour_word(h12);
    let n = if h12 == 0 { 12 } else { h12 };
    if n > 10 {
        assert(native_numeral(n) == seq!['열'] + native_numeral(n - 10));
    }
    assert(spelled(w) =~= native_numeral(n) + seq!['시']);
}

/// The minute words spell the minutes in full.
proof fn lemma_minute_words_spelled(m10: int, m1: int)
    requires
        0 <= m10 <= 5,
        m1 == 0 || m1 == 5,
    ensures
        spelled(tens_word(m10) + units_word(m1)) == (if m10 == 0 { seq![] } else if m10 == 1 {
            seq!['십']
        } else {
            sino_digit(m10) + seq!['십']
        }) + (if m1 == 5 { seq!['오'] } else { seq![] }) + seq!['분'],
{
    lemma_spelled_add(tens_word(m10), units_word(m1));
    assert(spelled(tens_word(m10) + units_word(m1)) =~= (if m10 == 0 { seq![] } else if m10 == 1 {
        seq!['십']
    } else {
        sino_digit(m10) + seq!['십']
    }) + (if m1 == 5 { seq!['오'] } else { seq![] }) + seq!['분']);
}

/// The panel reads the time aloud: the syllables lit for `h:m`, read in
/// order, spell the time in Korean (hour word in full with 시, tens of
/// minutes, 오 for a five, 분), or 자정 at midnight and 정오 at noon.
pub proof fn lemma_time_words_spell_time(h: int, m: int)
    requires
        0 <= h < 24,
        0 <= m < 60,
    ensures
        spelled(time_words(h, m)) == time_phrase(h, m),
{
    lemma_shown_time_accuracy(h, m);
    let (hh, m10, m1) = shown_time(h, m);
    if (hh == 0 || hh == 24) && m10 + m1 == 0 {
        assert(spelled(seq![15u8, 16]) =~= seq!['자', '정']);
    } else if hh == 12 && m10 + m1 == 0 {
        assert(spelled(seq![16u8, 21]) =~= seq!['정', '오']);
    } else {
        let h12 = if hh > 12 { hh - 12 } else { hh };
        lemma_hour_word_spelled(h12);
        if m10 + m1 != 0 {
            let tail = tens_word(m10) + units_word(m1);
            lemma_minute_words_spelled(m10, m1);
            lemma_spelled_add(hour_word(h12), tail);
            assert(time_words(h, m) == hour_word(h12) + tail);
        } else {
            let e: Seq<u8> = seq![];
            lemma_spelled_add(hour_word(h12), e);
            assert(time_words(h, m) == hour_word(h12) + e);
            assert(spelled(e) =~= seq![]);
        }
    }
}

/// In the frame for a set of syllables, each LED shows the colour exactly
/// when the syllable wired to it is one of them, and is off otherwise.
pub proof fn lemma_lit_frame_by_syllable(words: Seq<u8>, color: Rgb, p: int)
    requires
        forall|i: int| 0 <= i < words.len() ==> #[trigger] words[i] < LED_NUM,
        0 <= p < LED_NUM,
    ensures
        lit_frame(words, color)[p] == if words.contains(syllable_at(p) as u8) {
            gamma_of(color)
        } else {
            black()
        },
{
    lemma_chain_position_is_permutation();
    let cp = chain_positions(words);
    if cp.contains(p as u8) {
        let k = choose|k: int| 0 <= k < cp.len() && cp[k] == p as u8;
        assert(chain_position(words[k] as int) == p);
        assert(words[k] as int == syllable_at(p));
        assert(words.contains(syllable_at(p) as u8));
    }
    if words.contains(syllable_at(p) as u8) {
        let k = choose|k: int| 0 <= k < words.len() && words[k] == syllable_at(p) as u8;
        assert(cp[k] == p as u8);
    }
}

} // verus!
