use tag_firmware::app::Sound;
use tag_firmware::peripherals::audio::{Audio, TickAction};

/// Ticks until the sound is over; returns what every tick asked for.
fn run_to_end(audio: &mut Audio<u32>, limit: usize) -> Vec<TickAction<u32>> {
    let mut actions = Vec::new();
    while actions.len() < limit {
        let action = audio.tick();
        let finished = matches!(action, TickAction::Finished(_));
        actions.push(action);
        if finished {
            break;
        }
    }
    actions
}

#[test]
fn idle_engine_holds() {
    let mut audio: Audio<u32> = Audio::new();
    for _ in 0..1000 {
        assert_eq!(audio.tick(), TickAction::Hold);
    }
}

#[test]
fn play_sound_returns_the_first_frequency() {
    let expected = [
        (Sound::Connected, 1500),
        (Sound::Disconnected, 800),
        (Sound::UnlockSuccess, 1010),
        (Sound::UnlockFail, 880),
        (Sound::Alarm, 3040),
    ];
    for (sound, frequency) in expected {
        let mut audio: Audio<u32> = Audio::new();
        assert_eq!(audio.play_sound(sound, false, None), frequency);
        assert_eq!(audio.tick(), TickAction::SetFrequency(frequency));
    }
}

#[test]
fn connected_plays_five_ticks_per_tone_then_finishes() {
    let mut audio: Audio<u32> = Audio::new();
    assert_eq!(audio.play_sound(Sound::Connected, false, Some(11)), 1500);
    let actions = run_to_end(&mut audio, 1000);
    let mut expected = Vec::new();
    for frequency in [1500, 1300, 1100, 900] {
        expected.push(TickAction::SetFrequency(frequency));
        for _ in 0..4 {
            expected.push(TickAction::Hold);
        }
    }
    expected.push(TickAction::Finished(Some(11)));
    assert_eq!(actions, expected);
    assert_eq!(actions.len(), 21);
}

#[test]
fn a_tone_of_five_ticks_keeps_its_frequency_for_five_ticks() {
    let mut audio: Audio<u32> = Audio::new();
    audio.play_sound(Sound::Disconnected, true, None);
    let mut programmed = Vec::new();
    let mut current = 0;
    for _ in 0..40 {
        if let TickAction::SetFrequency(frequency) = audio.tick() {
            current = frequency;
        }
        programmed.push(current);
    }
    let mut expected = Vec::new();
    for frequency in [800, 1000, 1200, 1400, 800, 1000, 1200, 1400] {
        for _ in 0..5 {
            expected.push(frequency);
        }
    }
    assert_eq!(programmed, expected);
}

#[test]
fn unlock_fail_tones_last_their_own_durations() {
    let mut audio: Audio<u32> = Audio::new();
    assert_eq!(audio.play_sound(Sound::UnlockFail, false, Some(5)), 880);
    let actions = run_to_end(&mut audio, 1000);
    let mut expected = Vec::new();
    for (frequency, duration) in [
        (880, 10),
        (1046, 5),
        (880, 10),
        (1046, 15),
        (880, 10),
        (1046, 5),
        (880, 10),
        (1046, 15),
    ] {
        expected.push(TickAction::SetFrequency(frequency));
        for _ in 1..duration {
            expected.push(TickAction::Hold);
        }
    }
    expected.push(TickAction::Finished(Some(5)));
    assert_eq!(actions.len(), 81);
    assert_eq!(actions, expected);
}

#[test]
fn unlock_success_finishes_after_thirty_ticks() {
    let mut audio: Audio<u32> = Audio::new();
    assert_eq!(audio.play_sound(Sound::UnlockSuccess, false, Some(1)), 1010);
    let actions = run_to_end(&mut audio, 1000);
    assert_eq!(actions.len(), 31);
    assert_eq!(actions[0], TickAction::SetFrequency(1010));
    assert_eq!(actions[1], TickAction::Hold);
    assert_eq!(actions[2], TickAction::Hold);
    assert_eq!(actions[3], TickAction::SetFrequency(910));
    assert_eq!(actions[27], TickAction::SetFrequency(110));
    assert_eq!(actions[30], TickAction::Finished(Some(1)));
}

#[test]
fn completion_is_handed_out_exactly_once() {
    let mut audio: Audio<u32> = Audio::new();
    audio.play_sound(Sound::Connected, false, Some(42));
    let mut handed_out = Vec::new();
    for tick in 0..500 {
        if let TickAction::Finished(completion) = audio.tick() {
            handed_out.push((tick, completion));
        }
    }
    assert_eq!(handed_out, vec![(20, Some(42))]);
}

#[test]
fn engine_is_idle_after_the_sound() {
    let mut audio: Audio<u32> = Audio::new();
    audio.play_sound(Sound::Disconnected, false, Some(3));
    let actions = run_to_end(&mut audio, 1000);
    assert_eq!(actions.last(), Some(&TickAction::Finished(Some(3))));
    for _ in 0..100 {
        assert_eq!(audio.tick(), TickAction::Hold);
    }
}

#[test]
fn sound_without_completion_finishes_with_none() {
    let mut audio: Audio<u32> = Audio::new();
    audio.play_sound(Sound::Connected, false, None);
    let actions = run_to_end(&mut audio, 1000);
    assert_eq!(actions.len(), 21);
    assert_eq!(actions[20], TickAction::Finished(None));
}

#[test]
fn new_sound_preempts_and_drops_the_old_completion() {
    let mut audio: Audio<u32> = Audio::new();
    assert_eq!(audio.play_sound(Sound::Connected, false, Some(1)), 1500);
    for _ in 0..7 {
        audio.tick();
    }
    assert_eq!(audio.play_sound(Sound::Disconnected, false, Some(2)), 800);
    let actions = run_to_end(&mut audio, 1000);
    assert_eq!(actions[0], TickAction::SetFrequency(800));
    assert_eq!(actions.len(), 21);
    let finished: Vec<&TickAction<u32>> =
        actions.iter().filter(|action| matches!(action, TickAction::Finished(_))).collect();
    assert_eq!(finished, vec![&TickAction::Finished(Some(2))]);
    for _ in 0..100 {
        assert_eq!(audio.tick(), TickAction::Hold);
    }
}

#[test]
fn preempting_in_the_middle_of_a_tone_starts_at_offset_zero() {
    let mut audio: Audio<u32> = Audio::new();
    audio.play_sound(Sound::UnlockFail, true, None);
    for _ in 0..3 {
        audio.tick();
    }
    assert_eq!(audio.play_sound(Sound::UnlockSuccess, false, None), 1010);
    assert_eq!(audio.tick(), TickAction::SetFrequency(1010));
    assert_eq!(audio.tick(), TickAction::Hold);
    assert_eq!(audio.tick(), TickAction::Hold);
    assert_eq!(audio.tick(), TickAction::SetFrequency(910));
}

#[test]
fn alarm_plays_until_preempted() {
    let mut audio: Audio<u32> = Audio::new();
    assert_eq!(audio.play_sound(Sound::Alarm, true, Some(9)), 3040);
    for tick in 0..20_000u32 {
        let expected = if tick % 10 != 0 {
            TickAction::Hold
        } else if (tick / 10) % 2 == 0 {
            TickAction::SetFrequency(3040)
        } else {
            TickAction::SetFrequency(3340)
        };
        assert_eq!(audio.tick(), expected);
    }
    assert_eq!(audio.play_sound(Sound::Connected, false, None), 1500);
    let actions = run_to_end(&mut audio, 1000);
    assert_eq!(actions.len(), 21);
    assert_eq!(actions[20], TickAction::Finished(None));
}

#[test]
fn alarm_without_repeat_does_not_finish() {
    let mut audio: Audio<u32> = Audio::new();
    audio.play_sound(Sound::Alarm, false, Some(9));
    let actions = run_to_end(&mut audio, 5000);
    assert_eq!(actions.len(), 5000);
    assert!(actions.iter().all(|action| !matches!(action, TickAction::Finished(_))));
}

#[test]
fn repeating_sound_does_not_finish() {
    let mut audio: Audio<u32> = Audio::new();
    audio.play_sound(Sound::Connected, true, Some(9));
    let actions = run_to_end(&mut audio, 5000);
    assert_eq!(actions.len(), 5000);
    assert_eq!(actions[20], TickAction::SetFrequency(1500));
}

#[test]
fn sound_can_be_played_again_after_it_finished() {
    let mut audio: Audio<u32> = Audio::new();
    audio.play_sound(Sound::Connected, false, Some(1));
    assert_eq!(run_to_end(&mut audio, 1000).len(), 21);
    audio.play_sound(Sound::Connected, false, Some(2));
    let actions = run_to_end(&mut audio, 1000);
    assert_eq!(actions.len(), 21);
    assert_eq!(actions[0], TickAction::SetFrequency(1500));
    assert_eq!(actions[20], TickAction::Finished(Some(2)));
}

#[test]
fn completion_need_not_be_copyable() {
    let mut audio: Audio<Box<dyn FnOnce() -> u8>> = Audio::new();
    audio.play_sound(Sound::Connected, false, Some(Box::new(|| 7)));
    let mut results = Vec::new();
    for _ in 0..100 {
        if let TickAction::Finished(Some(completion)) = audio.tick() {
            results.push(completion());
        }
    }
    assert_eq!(results, vec![7]);
}
