use rusty_hangulclock::panel::{remap, time_leds, Hsv, Rgb, Sleds, LED_NUM};

fn expected_color(c: Hsv) -> Rgb {
    let raw = smart_leds::hsv::hsv2rgb(smart_leds::hsv::Hsv { hue: c.hue, sat: c.sat, val: c.val });
    let g = smart_leds::gamma(std::iter::once(raw)).next().unwrap();
    Rgb { r: g.r, g: g.g, b: g.b }
}

const OFF: Rgb = Rgb { r: 0, g: 0, b: 0 };

#[test]
fn remap_maps_each_syllable_to_its_chain_position() {
    let all: Vec<u8> = (0..25).collect();
    let mapped = remap(all);
    assert_eq!(
        mapped,
        vec![4, 5, 14, 15, 24, 3, 6, 13, 16, 23, 2, 7, 12, 17, 22, 1, 8, 11, 18, 21, 0, 9, 10, 19, 20]
    );
    let mut sorted = mapped.clone();
    sorted.sort();
    assert_eq!(sorted, (0..25).collect::<Vec<u8>>());
}

#[test]
fn remap_keeps_order_and_repeats() {
    assert_eq!(remap(vec![24, 0, 0]), vec![20, 4, 4]);
    assert_eq!(remap(vec![]), Vec::<u8>::new());
}

#[test]
fn midnight_and_noon_have_their_own_words() {
    assert_eq!(time_leds(0, 0), vec![15, 16]);
    assert_eq!(time_leds(0, 2), vec![15, 16]);
    assert_eq!(time_leds(23, 58), vec![15, 16]);
    assert_eq!(time_leds(12, 0), vec![16, 21]);
    assert_eq!(time_leds(11, 57), vec![16, 21]);
    assert_eq!(time_leds(12, 3), vec![16, 21]);
}

#[test]
fn hours_and_minutes_in_words() {
    assert_eq!(time_leds(1, 0), vec![1, 14]);
    assert_eq!(time_leds(3, 25), vec![3, 14, 17, 19, 23, 24]);
    assert_eq!(time_leds(10, 10), vec![0, 14, 22, 24]);
    assert_eq!(time_leds(13, 45), vec![1, 14, 20, 22, 23, 24]);
    assert_eq!(time_leds(0, 5), vec![0, 5, 14, 23, 24]);
    assert_eq!(time_leds(12, 30), vec![0, 5, 14, 18, 19, 24]);
    assert_eq!(time_leds(21, 54), vec![12, 13, 14, 21, 22, 23, 24]);
    assert_eq!(time_leds(5, 37), vec![2, 7, 14, 20, 22, 24]);
    assert_eq!(time_leds(6, 59), vec![8, 9, 14]);
    assert_eq!(time_leds(23, 4), vec![0, 1, 14, 23, 24]);
}

#[test]
fn minutes_round_to_five() {
    // 1-3 down, 4-6 to five, 7-9 up.
    assert_eq!(time_leds(8, 11), time_leds(8, 10));
    assert_eq!(time_leds(8, 13), time_leds(8, 10));
    assert_eq!(time_leds(8, 14), time_leds(8, 15));
    assert_eq!(time_leds(8, 16), time_leds(8, 15));
    assert_eq!(time_leds(8, 17), time_leds(8, 20));
    assert_eq!(time_leds(8, 58), time_leds(9, 0));
}

#[test]
fn same_words_exactly_for_same_dial_reading() {
    // Morning and afternoon read the same on the dial.
    assert_eq!(time_leds(2, 20), time_leds(14, 20));
    assert_eq!(time_leds(0, 40), time_leds(12, 40));
    // Midnight and noon are told apart.
    assert_ne!(time_leds(0, 0), time_leds(12, 0));
    // Every pair of times that differ on the dial light different sets.
    let mut seen: Vec<(Vec<u8>, i32)> = Vec::new();
    for h in 0..24u8 {
        for m in 0..60u8 {
            let mut set = time_leds(h, m);
            set.sort();
            let (hh, m10, m1) = {
                let (mut hh, mut m10, mut m1) = (h as i32, (m / 10) as i32, (m % 10) as i32);
                match m1 {
                    1..=3 => m1 = 0,
                    4..=6 => m1 = 5,
                    7..=9 => {
                        m1 = 0;
                        m10 += 1;
                        if m10 == 6 {
                            m10 = 0;
                            hh += 1;
                        }
                    }
                    _ => {}
                }
                (hh, m10, m1)
            };
            let t = hh * 60 + m10 * 10 + m1;
            let reading = if t % 1440 == 0 { -1 } else { t % 720 };
            for (s, r) in &seen {
                assert_eq!(*s == set, *r == reading, "{}:{}", h, m);
            }
            seen.push((set, reading));
        }
    }
}

#[test]
fn show_time_lights_the_words_on_the_chain() {
    let color = Hsv { hue: 0, sat: 255, val: 128 };
    let mut sleds = Sleds::new(());
    assert_eq!(sleds.frame(), &vec![OFF; LED_NUM]);
    sleds.show_time(3, 25, color);
    let lit = remap(time_leds(3, 25));
    let on = expected_color(color);
    assert_ne!(on, Rgb { r: 128, g: 0, b: 0 });
    for i in 0..LED_NUM {
        let want = if lit.contains(&(i as u8)) { on } else { OFF };
        assert_eq!(sleds.frame()[i], want, "led {}", i);
    }
    assert_eq!(sleds.frame().iter().filter(|c| **c != OFF).count(), 6);
}

#[test]
fn show_time_at_midnight() {
    let color = Hsv { hue: 100, sat: 200, val: 255 };
    let mut sleds = Sleds::new(7u32);
    sleds.show_time(0, 0, color);
    let on = expected_color(color);
    // Syllables 15 and 16 sit at chain positions 1 and 8.
    for i in 0..LED_NUM {
        let want = if i == 1 || i == 8 { on } else { OFF };
        assert_eq!(sleds.frame()[i], want);
    }
    assert_eq!(sleds.device, 7);
}

#[test]
fn turn_on_all_lights_everything() {
    let color = Hsv { hue: 0, sat: 255, val: 255 };
    let mut sleds = Sleds::new(());
    sleds.turn_on_all(color);
    assert_eq!(sleds.frame(), &vec![Rgb { r: 255, g: 0, b: 0 }; LED_NUM]);
    let dim = Hsv { hue: 0, sat: 255, val: 128 };
    sleds.turn_on_all(dim);
    let want = expected_color(dim);
    assert!(want.r < 128);
    assert_eq!(sleds.frame(), &vec![want; LED_NUM]);
}

#[test]
fn welcome_walks_along_the_chain_then_shows_a_rainbow() {
    let mut sleds = Sleds::new(());
    let stored = Hsv { hue: 40, sat: 200, val: 100 };
    let frames = sleds.welcome(stored);
    assert_eq!(frames.len(), LED_NUM + 2);
    for k in 0..LED_NUM {
        let hue = (10 * k % 256) as u8;
        let on = expected_color(Hsv { hue, sat: 255, val: 128 });
        for i in 0..LED_NUM {
            assert_eq!(frames[k][i], if i == k { on } else { OFF });
        }
    }
    for i in 0..LED_NUM {
        let hue = ((250 + 10 * i) % 256) as u8;
        assert_eq!(frames[LED_NUM][i], expected_color(Hsv { hue, sat: 255, val: 255 }));
    }
    assert_eq!(frames[LED_NUM + 1], vec![expected_color(stored); LED_NUM]);
    assert_eq!(sleds.frame(), &frames[LED_NUM + 1]);
}
