use kcs_decoder::Channels;
use kcs_decoder::DecoderConfig;
use kcs_decoder::Parity;
use kcs_decoder::Preset;
use kcs_decoder::SignalCondition;
use kcs_decoder::Symbol;

#[test]
fn preset_std_values() {
    let c = DecoderConfig::get_preset(&Preset::Std);
    assert_eq!(c.startbits, (1, SignalCondition::Space));
    assert_eq!(c.num_databits, 8);
    assert_eq!(c.parity, Parity::NONE);
    assert_eq!(c.stopbits, (2, SignalCondition::Mark));
    assert_eq!(c.channels, Channels::All);
    assert_eq!(
        c.symbols.0,
        Symbol { frequency: 1200, periods: 4, signal: SignalCondition::Space }
    );
    assert_eq!(
        c.symbols.1,
        Symbol { frequency: 2400, periods: 8, signal: SignalCondition::Mark }
    );
    assert_eq!(c.frequency_tolerance, 10);
}

#[test]
fn preset_nascom_acorn_values() {
    for p in [Preset::NASCOM, Preset::Acorn] {
        let c = DecoderConfig::get_preset(&p);
        assert_eq!(c.startbits, (1, SignalCondition::Space));
        assert_eq!(c.num_databits, 8);
        assert_eq!(c.parity, Parity::NONE);
        assert_eq!(c.stopbits, (1, SignalCondition::Mark));
        assert_eq!(
            c.symbols.0,
            Symbol { frequency: 1200, periods: 1, signal: SignalCondition::Space }
        );
        assert_eq!(
            c.symbols.1,
            Symbol { frequency: 2400, periods: 2, signal: SignalCondition::Mark }
        );
        assert_eq!(c.frequency_tolerance, 10);
    }
}

#[test]
fn preset_msx_values() {
    let c = DecoderConfig::get_preset(&Preset::MSX1200);
    assert_eq!(c.stopbits, (2, SignalCondition::Mark));
    assert_eq!(
        c.symbols.0,
        Symbol { frequency: 1200, periods: 1, signal: SignalCondition::Space }
    );
    assert_eq!(
        c.symbols.1,
        Symbol { frequency: 2400, periods: 2, signal: SignalCondition::Mark }
    );

    let c = DecoderConfig::get_preset(&Preset::MSX2400);
    assert_eq!(c.stopbits, (2, SignalCondition::Mark));
    assert_eq!(
        c.symbols.0,
        Symbol { frequency: 2400, periods: 1, signal: SignalCondition::Space }
    );
    assert_eq!(
        c.symbols.1,
        Symbol { frequency: 4800, periods: 2, signal: SignalCondition::Mark }
    );
}

#[test]
fn default_config_is_nascom() {
    let d = DecoderConfig::default();
    let n = DecoderConfig::get_preset(&Preset::NASCOM);
    assert_eq!(d.startbits, n.startbits);
    assert_eq!(d.num_databits, n.num_databits);
    assert_eq!(d.parity, n.parity);
    assert_eq!(d.stopbits, n.stopbits);
    assert_eq!(d.symbols.0, n.symbols.0);
    assert_eq!(d.symbols.1, n.symbols.1);
    assert_eq!(d.frequency_tolerance, n.frequency_tolerance);
}

#[test]
fn parse_preset_names() {
    assert_eq!(Preset::parse("Standard"), Preset::Std);
    assert_eq!(Preset::parse("std"), Preset::Std);
    assert_eq!(Preset::parse("nascom"), Preset::NASCOM);
    assert_eq!(Preset::parse("Acorn"), Preset::Acorn);
    assert_eq!(Preset::parse("MSX1200"), Preset::MSX1200);
    assert_eq!(Preset::parse("msx2400"), Preset::MSX2400);
    assert_eq!(Preset::parse("m2400x"), Preset::MSX2400);
    assert_eq!(Preset::parse(""), Preset::Std);
    assert_eq!(Preset::parse("zzz"), Preset::Std);
}

#[test]
fn parse_parity_names() {
    assert_eq!(Parity::parse("Even"), Parity::EVEN);
    assert_eq!(Parity::parse("odd"), Parity::ODD);
    assert_eq!(Parity::parse("mark"), Parity::MARK);
    assert_eq!(Parity::parse("Space"), Parity::SPACE);
    assert_eq!(Parity::parse("None"), Parity::NONE);
    assert_eq!(Parity::parse(""), Parity::NONE);
    assert_eq!(Parity::parse("x"), Parity::NONE);
}

#[test]
fn parse_channels_names() {
    assert_eq!(Channels::parse("All"), Channels::All);
    assert_eq!(Channels::parse("all"), Channels::All);
    assert_eq!(Channels::parse("0"), Channels::Specific(0));
    assert_eq!(Channels::parse("1"), Channels::Specific(1));
    assert_eq!(Channels::parse("7"), Channels::Specific(7));
    assert_eq!(Channels::parse(""), Channels::All);
    assert_eq!(Channels::parse("x"), Channels::All);
}

#[test]
fn parse_signal_condition_names() {
    assert_eq!(SignalCondition::parse("Mark"), SignalCondition::Mark);
    assert_eq!(SignalCondition::parse("space"), SignalCondition::Space);
    assert_eq!(SignalCondition::parse(""), SignalCondition::Error);
    assert_eq!(SignalCondition::parse("bogus"), SignalCondition::Error);
}
