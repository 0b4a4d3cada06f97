//! Regulatory region plans: the ordered list of uplink center frequencies
//! (in Hz) that a conformance sweep must cover for each supported region.

use vstd::prelude::*;

verus! {

/// A regulatory region, naming one fixed plan of uplink center frequencies.
#[derive(Debug, Clone, Copy, PartialEq, Eq, Structural)]
pub enum Region {
    US915,
    EU868,
    EU433,
    CN470,
    CN779,
    AU915,
    AS923_1,
    AS923_2,
    AS923_3,
    AS923_4,
    KR920,
    IN865,
    RU864,
}

impl Region {
    /// The region's plan: its uplink center frequencies in Hz, in test order.
    pub open spec fn spec_uplink_frequencies(self) -> Seq<usize> {
        match self {
            Region::US915 => seq![
                903_900_000,
                904_100_000,
                904_300_000,
                904_500_000,
                904_700_000,
                904_900_000,
                905_100_000,
                905_300_000,
            ],
            Region::EU868 => seq![
                868_100_000,
                868_300_000,
                868_500_000,
                867_100_000,
                867_300_000,
                867_500_000,
                867_700_000,
                867_900_000,
                868_300_000,
            ],
            Region::EU433 => seq![433_175_000, 433_375_000, 433_575_000],
            Region::CN470 => seq![
                486_300_000,
                486_500_000,
                486_700_000,
                486_900_000,
                487_100_000,
                487_300_000,
                487_500_000,
                487_700_000,
            ],
            Region::CN779 => seq![779_500_000, 779_700_000, 779_900_000],
            Region::AU915 => seq![
                916_800_000,
                917_000_000,
                917_200_000,
                917_400_000,
                917_500_000,
                917_600_000,
                917_800_000,
                918_000_000,
                918_200_000,
            ],
            Region::AS923_1 => seq![
                923_200_000,
                923_400_000,
                923_600_000,
                923_800_000,
                924_000_000,
                924_200_000,
                924_400_000,
                924_600_000,
            ],
            Region::AS923_2 => seq![
                921_400_000,
                921_600_000,
                921_800_000,
                922_000_000,
                922_200_000,
                922_400_000,
                922_600_000,
                922_800_000,
            ],
            Region::AS923_3 => seq![
                916_600_000,
                916_800_000,
                917_000_000,
                917_200_000,
                917_400_000,
                917_600_000,
                917_800_000,
                918_000_000,
            ],
            Region::AS923_4 => seq![
                917_300_000,
                917_500_000,
                917_700_000,
                917_900_000,
                918_100_000,
                918_300_000,
                918_500_000,
                918_700_000,
            ],
            Region::KR920 => seq![
                922_100_000,
                922_300_000,
                922_500_000,
                922_700_000,
                922_900_000,
                923_100_000,
                923_300_000,
            ],
            Region::IN865 => seq![865_062_500, 865_402_500, 865_985_000],
            Region::RU864 => seq![
                864_100_000,
                864_300_000,
                864_500_000,
                864_700_000,
                864_900_000,
                868_900_000,
                869_100_000,
            ],
        }
    }

    /// Returns the region's uplink frequencies in Hz, in the plan's order.
    pub fn get_uplink_frequencies(&self) -> (r: Vec<usize>)
        ensures
            r@ == self.spec_uplink_frequencies(),
    {
        let r: Vec<usize> = match self {
            Region::US915 => vec![
                903_900_000,
                904_100_000,
                904_300_000,
                904_500_000,
                904_700_000,
                904_900_000,
                905_100_000,
                905_300_000,
            ],
            Region::EU868 => vec![
                868_100_000,
                868_300_000,
                868_500_000,
                867_100_000,
                867_300_000,
                867_500_000,
                867_700_000,
                867_900_000,
                868_300_000,
            ],
            Region::EU433 => vec![433_175_000, 433_375_000, 433_575_000],
            Region::CN470 => vec![
                486_300_000,
                486_500_000,
                486_700_000,
                486_900_000,
                487_100_000,
                487_300_000,
                487_500_000,
                487_700_000,
            ],
            Region::CN779 => vec![779_500_000, 779_700_000, 779_900_000],
            Region::AU915 => vec![
                916_800_000,
                917_000_000,
                917_200_000,
                917_400_000,
                917_500_000,
                917_600_000,
                917_800_000,
                918_000_000,
                918_200_000,
            ],
            Region::AS923_1 => vec![
                923_200_000,
                923_400_000,
                923_600_000,
                923_800_000,
                924_000_000,
                924_200_000,
                924_400_000,
                924_600_000,
            ],
            Region::AS923_2 => vec![
                921_400_000,
                921_600_000,
                921_800_000,
                922_000_000,
                922_200_000,
                922_400_000,
                922_600_000,
                922_800_000,
            ],
            Region::AS923_3 => vec![
                916_600_000,
                916_800_000,
                917_000_000,
                917_200_000,
                917_400_000,
                917_600_000,
                917_800_000,
                918_000_000,
            ],
            Region::AS923_4 => vec![
                917_300_000,
                917_500_000,
                917_700_000,
                917_900_000,
                918_100_000,
                918_300_000,
                918_500_000,
                918_700_000,
            ],
            Region::KR920 => vec![
                922_100_000,
                922_300_000,
                922_500_000,
                922_700_000,
                922_900_000,
                923_100_000,
                923_300_000,
            ],
            Region::IN865 => vec![865_062_500, 865_402_500, 865_985_000],
            Region::RU864 => vec![
                864_100_000,
                864_300_000,
                864_500_000,
                864_700_000,
                864_900_000,
                868_900_000,
                869_100_000,
            ],
        };
        proof {
            assert(r@ =~= self.spec_uplink_frequencies());
        }
        r
    }
}

} // verus!
