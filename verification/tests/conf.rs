use rf_tester::global_conf::decomment;
use rf_tester::global_conf::try_decomment;
use rf_tester::global_conf::Channel;
use rf_tester::global_conf::ChannelEnabled;
use rf_tester::global_conf::ChannelFsk;
use rf_tester::global_conf::Config;
use rf_tester::global_conf::LoraStd;
use rf_tester::global_conf::LoraStdEnabled;
use rf_tester::global_conf::Radio;
use rf_tester::global_conf::Sx130xConf;
use rf_tester::global_conf::Sx130xConfData;

fn radio(freq: isize) -> Radio {
    Radio { freq, tx_freq_min: None, tx_freq_max: None }
}

fn chan(radio: usize, if_offset: isize) -> Channel {
    Channel { enable: true, config: Some(ChannelEnabled { if_offset, radio }) }
}

fn chan_off() -> Channel {
    Channel { enable: false, config: None }
}

fn sample_data() -> Sx130xConfData {
    Sx130xConfData {
        radio_0: Radio {
            freq: 904_300_000,
            tx_freq_min: Some(903_000_000),
            tx_freq_max: Some(928_000_000),
        },
        radio_1: radio(905_000_000),
        chan_multiSF_0: chan(0, -400_000),
        chan_multiSF_1: chan(0, -200_000),
        chan_multiSF_2: chan(0, 0),
        chan_multiSF_3: chan(0, 200_000),
        chan_multiSF_4: chan(1, -300_000),
        chan_multiSF_5: chan(1, -100_000),
        chan_multiSF_6: chan(1, 100_000),
        chan_multiSF_7: chan(1, 300_000),
        chan_Lora_std: LoraStd {
            enable: true,
            config: Some(LoraStdEnabled { bandwidth: 500_000, if_offset: 300_000, radio: 0 }),
        },
        chan_FSK: ChannelFsk {
            enable: true,
            config: Some(LoraStdEnabled { bandwidth: 125_000, if_offset: 300_000, radio: 1 }),
        },
    }
}

#[test]
fn channel_frequency_adds_if_offset_to_selected_radio() {
    let r0 = radio(904_300_000);
    let r1 = radio(905_000_000);
    assert_eq!(chan(0, -400_000).frequency(&r0, &r1), Some(903_900_000));
    assert_eq!(chan(1, 300_000).frequency(&r0, &r1), Some(905_300_000));
    assert_eq!(chan_off().frequency(&r0, &r1), None);
}

#[test]
fn channel_summary_renders_mhz_or_disabled() {
    let r0 = radio(904_300_000);
    let r1 = radio(905_000_000);
    assert_eq!(chan(0, -400_000).summary(&r0, &r1), "903.9 MHz");
    assert_eq!(chan_off().summary(&r0, &r1), "Disabled");
}

#[test]
fn lora_std_frequency_bandwidth_and_summary() {
    let r0 = radio(904_300_000);
    let r1 = radio(905_000_000);
    let c = LoraStd {
        enable: true,
        config: Some(LoraStdEnabled { bandwidth: 500_000, if_offset: 300_000, radio: 0 }),
    };
    assert_eq!(c.frequency(&r0, &r1), Some(904_600_000));
    assert_eq!(c.bandwidth(), Some(500_000));
    assert_eq!(c.summary(&r0, &r1), "904.6 MHz, BW 500 KHz");
    let off = LoraStd { enable: false, config: None };
    assert_eq!(off.frequency(&r0, &r1), None);
    assert_eq!(off.bandwidth(), None);
    assert_eq!(off.summary(&r0, &r1), "Disabled");
}

#[test]
fn fsk_frequency_bandwidth_and_summary() {
    let r0 = radio(904_300_000);
    let r1 = radio(905_000_000);
    let c = ChannelFsk {
        enable: true,
        config: Some(LoraStdEnabled { bandwidth: 62_500, if_offset: 300_000, radio: 1 }),
    };
    assert_eq!(c.frequency(&r0, &r1), Some(905_300_000));
    assert_eq!(c.bandwidth(), Some(62_500));
    assert_eq!(c.summary(&r0, &r1), "905.3 MHz, BW 62.5 KHz");
}

#[test]
fn data_frequency_by_channel_index() {
    let d = sample_data();
    assert_eq!(d.frequency(0), Some(903_900_000));
    assert_eq!(d.frequency(3), Some(904_500_000));
    assert_eq!(d.frequency(7), Some(905_300_000));
    assert_eq!(d.frequency(8), Some(904_600_000));
    assert_eq!(d.frequency(9), Some(905_300_000));
    assert_eq!(d.frequency(10), None);
}

#[test]
fn config_delegates_under_either_key() {
    let a = Config { config: Sx130xConf::SX1301_conf(sample_data()) };
    let b = Config { config: Sx130xConf::SX130x_conf(sample_data()) };
    assert_eq!(a.frequency(0), Some(903_900_000));
    assert_eq!(b.frequency(0), Some(903_900_000));
    assert_eq!(a.summary(), b.summary());
}

#[test]
fn summary_lists_every_channel_line() {
    let d = sample_data();
    let expected = "1        903.9 MHz\n\
                    2        904.1 MHz\n\
                    3        904.3 MHz\n\
                    4        904.5 MHz\n\
                    5        904.7 MHz\n\
                    6        904.9 MHz\n\
                    7        905.1 MHz\n\
                    8        905.3 MHz\n\
                    Fat LoRa 904.6 MHz, BW 500 KHz\n\
                    FSK      905.3 MHz, BW 125 KHz";
    assert_eq!(d.summary(), expected);
}

#[test]
fn summary_warns_when_a_frequency_leaves_the_tx_range() {
    let mut d = sample_data();
    d.radio_0.tx_freq_min = Some(904_000_000);
    let s = d.summary();
    assert!(s.ends_with("\nWARNING: Cannot transmit on all uplink frequencies for POC!"));
}

#[test]
fn summary_ignores_disabled_channels_for_the_tx_range() {
    let mut d = sample_data();
    d.radio_0.tx_freq_min = Some(904_000_000);
    d.chan_multiSF_0 = chan_off();
    let s = d.summary();
    assert!(s.starts_with("1        Disabled\n"));
    assert!(!s.contains("WARNING"));
}

#[test]
fn decomment_strips_line_comments() {
    assert_eq!(decomment("a//b\nc"), "ac");
    assert_eq!(decomment("a// b"), "a");
    assert_eq!(decomment("a//b\r\nc"), "ac");
}

#[test]
fn decomment_strips_block_comments() {
    assert_eq!(decomment("a/*b*/c"), "ac");
    assert_eq!(decomment("{\"k\": 1 /* note */, \"j\": 2}"), "{\"k\": 1 , \"j\": 2}");
}

#[test]
fn decomment_replaces_variables_with_empty_strings() {
    assert_eq!(decomment("x${VAR}y"), "x\"\"y");
    assert_eq!(decomment("\"gps\": ${GPS}"), "\"gps\": \"\"");
}

#[test]
fn decomment_drops_whitespace_before_a_closing_brace() {
    assert_eq!(decomment("{ }"), "{}");
    assert_eq!(decomment("{\"a\": 1 }"), "{\"a\": 1}");
}

#[test]
fn try_decomment_rejects_malformed_comments() {
    assert!(try_decomment("*/").is_none());
    assert!(try_decomment("a/*b").is_none());
    assert!(try_decomment("// ${x}\n").is_none());
    assert!(try_decomment("/* /* */").is_none());
    assert_eq!(try_decomment("a/*b*/c").as_deref(), Some("ac"));
}
