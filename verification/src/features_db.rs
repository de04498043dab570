use vstd::prelude::*;

use crate::messages::{Feature, Point};
use crate::route_guide::all_located;

verus! {

fn place(name: &str, latitude: i32, longitude: i32) -> (res: Feature)
    ensures
        res.name@ == name@,
        res.location == Some(Point { latitude, longitude }),
{
    Feature { name: String::from_str(name), location: Some(Point { latitude, longitude }) }
}

/// The route guide's database of places.
pub fn load() -> (res: Vec<Feature>)
    ensures
        res@.len() == 19,
        all_located(res@),
        res@[0].name@ == "Patriots Path, Mendham, NJ 07945, USA"@,
        res@[0].location == Some(Point { latitude: 407_838_351i32, longitude: -746_143_763i32 }),
        res@[1].name@ == "101 New Jersey 10, Whippany, NJ 07981, USA"@,
        res@[1].location == Some(Point { latitude: 408_122_808i32, longitude: -743_999_179i32 }),
        res@[2].name@ == "U.S. 6, Shohola, PA 18458, USA"@,
        res@[2].location == Some(Point { latitude: 413_628_156i32, longitude: -749_015_468i32 }),
        res@[3].name@ == "5 Conners Road, Kingston, NY 12401, USA"@,
        res@[3].location == Some(Point { latitude: 419_999_544i32, longitude: -740_371_136i32 }),
        res@[4].name@ == "Mid Hudson Psychiatric Center, New Hampton, NY 10958, USA"@,
        res@[4].location == Some(Point { latitude: 414_008_389i32, longitude: -743_951_297i32 }),
        res@[5].name@ == "287 Flugertown Road, Livingston Manor, NY 12758, USA"@,
        res@[5].location == Some(Point { latitude: 419_611_318i32, longitude: -746_524_769i32 }),
        res@[6].name@ == "4001 Tremley Point Road, Linden, NJ 07036, USA"@,
        res@[6].location == Some(Point { latitude: 406_109_563i32, longitude: -742_186_778i32 }),
        res@[7].name@ == "352 South Mountain Road, Wallkill, NY 12589, USA"@,
        res@[7].location == Some(Point { latitude: 416_802_456i32, longitude: -742_370_183i32 }),
        res@[8].name@ == "Bailey Turn Road, Harriman, NY 10926, USA"@,
        res@[8].location == Some(Point { latitude: 412_950_425i32, longitude: -741_077_389i32 }),
        res@[9].name@ == "193-199 Wawayanda Road, Hewitt, NJ 07421, USA"@,
        res@[9].location == Some(Point { latitude: 412_144_655i32, longitude: -743_949_739i32 }),
        res@[10].name@ == "406-496 Ward Avenue, Pine Bush, NY 12566, USA"@,
        res@[10].location == Some(Point { latitude: 415_736_605i32, longitude: -742_847_522i32 }),
        res@[11].name@ == "162 Merrill Road, Highland Mills, NY 10930, USA"@,
        res@[11].location == Some(Point { latitude: 413_843_930i32, longitude: -740_501_726i32 }),
        res@[12].name@ == "Clinton Road, West Milford, NJ 07480, USA"@,
        res@[12].location == Some(Point { latitude: 410_873_075i32, longitude: -744_459_023i32 }),
        res@[13].name@ == "16 Old Brook Lane, Warwick, NY 10990, USA"@,
        res@[13].location == Some(Point { latitude: 412_346_009i32, longitude: -744_026_814i32 }),
        res@[14].name@ == "3 Drake Lane, Pennington, NJ 08534, USA"@,
        res@[14].location == Some(Point { latitude: 402_948_455i32, longitude: -747_903_913i32 }),
        res@[15].name@ == "6324 8th Avenue, Brooklyn, NY 11220, USA"@,
        res@[15].location == Some(Point { latitude: 406_337_092i32, longitude: -740_122_226i32 }),
        res@[16].name@ == "1 Merck Access Road, Whitehouse Station, NJ 08889, USA"@,
        res@[16].location == Some(Point { latitude: 406_421_967i32, longitude: -747_727_624i32 }),
        res@[17].name@ == "78-98 Schalck Road, Narrowsburg, NY 12764, USA"@,
        res@[17].location == Some(Point { latitude: 416_318_082i32, longitude: -749_677_716i32 }),
        res@[18].name@ == "282 Lakeview Drive Road, Highland Lake, NY 12743, USA"@,
        res@[18].location == Some(Point { latitude: 415_301_720i32, longitude: -748_416_257i32 }),
{
    let mut features: Vec<Feature> = Vec::new();
    features.push(place("Patriots Path, Mendham, NJ 07945, USA", 407_838_351, -746_143_763));
    features.push(place("101 New Jersey 10, Whippany, NJ 07981, USA", 408_122_808, -743_999_179));
    features.push(place("U.S. 6, Shohola, PA 18458, USA", 413_628_156, -749_015_468));
    features.push(place("5 Conners Road, Kingston, NY 12401, USA", 419_999_544, -740_371_136));
    features.push(place("Mid Hudson Psychiatric Center, New Hampton, NY 10958, USA", 414_008_389, -743_951_297));
    features.push(place("287 Flugertown Road, Livingston Manor, NY 12758, USA", 419_611_318, -746_524_769));
    features.push(place("4001 Tremley Point Road, Linden, NJ 07036, USA", 406_109_563, -742_186_778));
    features.push(place("352 South Mountain Road, Wallkill, NY 12589, USA", 416_802_456, -742_370_183));
    features.push(place("Bailey Turn Road, Harriman, NY 10926, USA", 412_950_425, -741_077_389));
    features.push(place("193-199 Wawayanda Road, Hewitt, NJ 07421, USA", 412_144_655, -743_949_739));
    features.push(place("406-496 Ward Avenue, Pine Bush, NY 12566, USA", 415_736_605, -742_847_522));
    features.push(place("162 Merrill Road, Highland Mills, NY 10930, USA", 413_843_930, -740_501_726));
    features.push(place("Clinton Road, West Milford, NJ 07480, USA", 410_873_075, -744_459_023));
    features.push(place("16 Old Brook Lane, Warwick, NY 10990, USA", 412_346_009, -744_026_814));
    features.push(place("3 Drake Lane, Pennington, NJ 08534, USA", 402_948_455, -747_903_913));
    features.push(place("6324 8th Avenue, Brooklyn, NY 11220, USA", 406_337_092, -740_122_226));
    features.push(place("1 Merck Access Road, Whitehouse Station, NJ 08889, USA", 406_421_967, -747_727_624));
    features.push(place("78-98 Schalck Road, Narrowsburg, NY 12764, USA", 416_318_082, -749_677_716));
    features.push(place("282 Lakeview Drive Road, Highland Lake, NY 12743, USA", 415_301_720, -748_416_257));
    features
}

} // verus!
