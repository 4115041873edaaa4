use vstd::prelude::*;

verus! {

/// What one character folds to: decorated, accented and ligature letters map
/// to their plain base letters; every other character maps to itself.
pub open spec fn fold_char(c: char) -> Seq<char> {
    match c {
        '\u{00a0}' => seq![' '],
        '\u{07c0}' => seq!['0'],
        '\u{24b6}' | '\u{ff21}' | '\u{00c0}' | '\u{00c1}' | '\u{00c2}' | '\u{1ea6}' | '\u{1ea4}'
        | '\u{1eaa}' | '\u{1ea8}' | '\u{00c3}' | '\u{0100}' | '\u{0102}' | '\u{1eb0}'
        | '\u{1eae}' | '\u{1eb4}' | '\u{1eb2}' | '\u{0226}' | '\u{01e0}' | '\u{00c4}'
        | '\u{01de}' | '\u{1ea2}' | '\u{00c5}' | '\u{01fa}' | '\u{01cd}' | '\u{0200}'
        | '\u{0202}' | '\u{1ea0}' | '\u{1eac}' | '\u{1eb6}' | '\u{1e00}' | '\u{0104}'
        | '\u{023a}' | '\u{2c6f}' => seq!['A'],
        '\u{a732}' => seq!['A', 'A'],
        '\u{00c6}' | '\u{01fc}' | '\u{01e2}' => seq!['A', 'E'],
        '\u{a734}' => seq!['A', 'O'],
        '\u{a736}' => seq!['A', 'U'],
        '\u{a738}' | '\u{a73a}' => seq!['A', 'V'],
        '\u{a73c}' => seq!['A', 'Y'],
        '\u{24b7}' | '\u{ff22}' | '\u{1e02}' | '\u{1e04}' | '\u{1e06}' | '\u{0243}' | '\u{0181}' => seq!['B'],
        '\u{24b8}' | '\u{ff23}' | '\u{a73e}' | '\u{1e08}' | '\u{0106}' | '\u{0043}' | '\u{0108}'
        | '\u{010a}' | '\u{010c}' | '\u{00c7}' | '\u{0187}' | '\u{023b}' => seq!['C'],
        '\u{24b9}' | '\u{ff24}' | '\u{1e0a}' | '\u{010e}' | '\u{1e0c}' | '\u{1e10}' | '\u{1e12}'
        | '\u{1e0e}' | '\u{0110}' | '\u{018a}' | '\u{0189}' | '\u{1d05}' | '\u{a779}' => seq!['D'],
        '\u{00d0}' => seq!['D', 'h'],
        '\u{01f1}' | '\u{01c4}' => seq!['D', 'Z'],
        '\u{01f2}' | '\u{01c5}' => seq!['D', 'z'],
        '\u{025b}' | '\u{24ba}' | '\u{ff25}' | '\u{00c8}' | '\u{00c9}' | '\u{00ca}' | '\u{1ec0}'
        | '\u{1ebe}' | '\u{1ec4}' | '\u{1ec2}' | '\u{1ebc}' | '\u{0112}' | '\u{1e14}'
        | '\u{1e16}' | '\u{0114}' | '\u{0116}' | '\u{00cb}' | '\u{1eba}' | '\u{011a}'
        | '\u{0204}' | '\u{0206}' | '\u{1eb8}' | '\u{1ec6}' | '\u{0228}' | '\u{1e1c}'
        | '\u{0118}' | '\u{1e18}' | '\u{1e1a}' | '\u{0190}' | '\u{018e}' | '\u{1d07}' => seq!['E'],
        '\u{a77c}' | '\u{24bb}' | '\u{ff26}' | '\u{1e1e}' | '\u{0191}' | '\u{a77b}' => seq!['F'],
        '\u{24bc}' | '\u{ff27}' | '\u{01f4}' | '\u{011c}' | '\u{1e20}' | '\u{011e}' | '\u{0120}'
        | '\u{01e6}' | '\u{0122}' | '\u{01e4}' | '\u{0193}' | '\u{a7a0}' | '\u{a77d}'
        | '\u{a77e}' | '\u{0262}' => seq!['G'],
        '\u{24bd}' | '\u{ff28}' | '\u{0124}' | '\u{1e22}' | '\u{1e26}' | '\u{021e}' | '\u{1e24}'
        | '\u{1e28}' | '\u{1e2a}' | '\u{0126}' | '\u{2c67}' | '\u{2c75}' | '\u{a78d}' => seq!['H'],
        '\u{24be}' | '\u{ff29}' | '\u{00cc}' | '\u{00cd}' | '\u{00ce}' | '\u{0128}' | '\u{012a}'
        | '\u{012c}' | '\u{0130}' | '\u{00cf}' | '\u{1e2e}' | '\u{1ec8}' | '\u{01cf}'
        | '\u{0208}' | '\u{020a}' | '\u{1eca}' | '\u{012e}' | '\u{1e2c}' | '\u{0197}' => seq!['I'],
        '\u{24bf}' | '\u{ff2a}' | '\u{0134}' | '\u{0248}' | '\u{0237}' => seq!['J'],
        '\u{24c0}' | '\u{ff2b}' | '\u{1e30}' | '\u{01e8}' | '\u{1e32}' | '\u{0136}' | '\u{1e34}'
        | '\u{0198}' | '\u{2c69}' | '\u{a740}' | '\u{a742}' | '\u{a744}' | '\u{a7a2}' => seq!['K'],
        '\u{24c1}' | '\u{ff2c}' | '\u{013f}' | '\u{0139}' | '\u{013d}' | '\u{1e36}' | '\u{1e38}'
        | '\u{013b}' | '\u{1e3c}' | '\u{1e3a}' | '\u{0141}' | '\u{023d}' | '\u{2c62}'
        | '\u{2c60}' | '\u{a748}' | '\u{a746}' | '\u{a780}' => seq!['L'],
        '\u{01c7}' => seq!['L', 'J'],
        '\u{01c8}' => seq!['L', 'j'],
        '\u{24c2}' | '\u{ff2d}' | '\u{1e3e}' | '\u{1e40}' | '\u{1e42}' | '\u{2c6e}' | '\u{019c}'
        | '\u{03fb}' => seq!['M'],
        '\u{a7a4}' | '\u{0220}' | '\u{24c3}' | '\u{ff2e}' | '\u{01f8}' | '\u{0143}' | '\u{00d1}'
        | '\u{1e44}' | '\u{0147}' | '\u{1e46}' | '\u{0145}' | '\u{1e4a}' | '\u{1e48}'
        | '\u{019d}' | '\u{a790}' | '\u{1d0e}' => seq!['N'],
        '\u{01ca}' => seq!['N', 'J'],
        '\u{01cb}' => seq!['N', 'j'],
        '\u{24c4}' | '\u{ff2f}' | '\u{00d2}' | '\u{00d3}' | '\u{00d4}' | '\u{1ed2}' | '\u{1ed0}'
        | '\u{1ed6}' | '\u{1ed4}' | '\u{00d5}' | '\u{1e4c}' | '\u{022c}' | '\u{1e4e}'
        | '\u{014c}' | '\u{1e50}' | '\u{1e52}' | '\u{014e}' | '\u{022e}' | '\u{0230}'
        | '\u{00d6}' | '\u{022a}' | '\u{1ece}' | '\u{0150}' | '\u{01d1}' | '\u{020c}'
        | '\u{020e}' | '\u{01a0}' | '\u{1edc}' | '\u{1eda}' | '\u{1ee0}' | '\u{1ede}'
        | '\u{1ee2}' | '\u{1ecc}' | '\u{1ed8}' | '\u{01ea}' | '\u{01ec}' | '\u{00d8}'
        | '\u{01fe}' | '\u{0186}' | '\u{019f}' | '\u{a74a}' | '\u{a74c}' => seq!['O'],
        '\u{0152}' => seq!['O', 'E'],
        '\u{01a2}' => seq!['O', 'I'],
        '\u{a74e}' => seq!['O', 'O'],
        '\u{0222}' => seq!['O', 'U'],
        '\u{24c5}' | '\u{ff30}' | '\u{1e54}' | '\u{1e56}' | '\u{01a4}' | '\u{2c63}' | '\u{a750}'
        | '\u{a752}' | '\u{a754}' => seq!['P'],
        '\u{24c6}' | '\u{ff31}' | '\u{a756}' | '\u{a758}' | '\u{024a}' => seq!['Q'],
        '\u{24c7}' | '\u{ff32}' | '\u{0154}' | '\u{1e58}' | '\u{0158}' | '\u{0210}' | '\u{0212}'
        | '\u{1e5a}' | '\u{1e5c}' | '\u{0156}' | '\u{1e5e}' | '\u{024c}' | '\u{2c64}'
        | '\u{a75a}' | '\u{a7a6}' | '\u{a782}' => seq!['R'],
        '\u{24c8}' | '\u{ff33}' | '\u{1e9e}' | '\u{015a}' | '\u{1e64}' | '\u{015c}' | '\u{1e60}'
        | '\u{0160}' | '\u{1e66}' | '\u{1e62}' | '\u{1e68}' | '\u{0218}' | '\u{015e}'
        | '\u{2c7e}' | '\u{a7a8}' | '\u{a784}' => seq!['S'],
        '\u{24c9}' | '\u{ff34}' | '\u{1e6a}' | '\u{0164}' | '\u{1e6c}' | '\u{021a}' | '\u{0162}'
        | '\u{1e70}' | '\u{1e6e}' | '\u{0166}' | '\u{01ac}' | '\u{01ae}' | '\u{023e}'
        | '\u{a786}' => seq!['T'],
        '\u{00de}' => seq!['T', 'h'],
        '\u{a728}' => seq!['T', 'Z'],
        '\u{24ca}' | '\u{ff35}' | '\u{00d9}' | '\u{00da}' | '\u{00db}' | '\u{0168}' | '\u{1e78}'
        | '\u{016a}' | '\u{1e7a}' | '\u{016c}' | '\u{00dc}' | '\u{01db}' | '\u{01d7}'
        | '\u{01d5}' | '\u{01d9}' | '\u{1ee6}' | '\u{016e}' | '\u{0170}' | '\u{01d3}'
        | '\u{0214}' | '\u{0216}' | '\u{01af}' | '\u{1eea}' | '\u{1ee8}' | '\u{1eee}'
        | '\u{1eec}' | '\u{1ef0}' | '\u{1ee4}' | '\u{1e72}' | '\u{0172}' | '\u{1e76}'
        | '\u{1e74}' | '\u{0244}' => seq!['U'],
        '\u{24cb}' | '\u{ff36}' | '\u{1e7c}' | '\u{1e7e}' | '\u{01b2}' | '\u{a75e}' | '\u{0245}' => seq!['V'],
        '\u{a760}' => seq!['V', 'Y'],
        '\u{24cc}' | '\u{ff37}' | '\u{1e80}' | '\u{1e82}' | '\u{0174}' | '\u{1e86}' | '\u{1e84}'
        | '\u{1e88}' | '\u{2c72}' => seq!['W'],
        '\u{24cd}' | '\u{ff38}' | '\u{1e8a}' | '\u{1e8c}' => seq!['X'],
        '\u{24ce}' | '\u{ff39}' | '\u{1ef2}' | '\u{00dd}' | '\u{0176}' | '\u{1ef8}' | '\u{0232}'
        | '\u{1e8e}' | '\u{0178}' | '\u{1ef6}' | '\u{1ef4}' | '\u{01b3}' | '\u{024e}'
        | '\u{1efe}' => seq!['Y'],
        '\u{24cf}' | '\u{ff3a}' | '\u{0179}' | '\u{1e90}' | '\u{017b}' | '\u{017d}' | '\u{1e92}'
        | '\u{1e94}' | '\u{01b5}' | '\u{0224}' | '\u{2c7f}' | '\u{2c6b}' | '\u{a762}' => seq!['Z'],
        '\u{24d0}' | '\u{ff41}' | '\u{1e9a}' | '\u{00e0}' | '\u{00e1}' | '\u{00e2}' | '\u{1ea7}'
        | '\u{1ea5}' | '\u{1eab}' | '\u{1ea9}' | '\u{00e3}' | '\u{0101}' | '\u{0103}'
        | '\u{1eb1}' | '\u{1eaf}' | '\u{1eb5}' | '\u{1eb3}' | '\u{0227}' | '\u{01e1}'
        | '\u{00e4}' | '\u{01df}' | '\u{1ea3}' | '\u{00e5}' | '\u{01fb}' | '\u{01ce}'
        | '\u{0201}' | '\u{0203}' | '\u{1ea1}' | '\u{1ead}' | '\u{1eb7}' | '\u{1e01}'
        | '\u{0105}' | '\u{2c65}' | '\u{0250}' | '\u{0251}' => seq!['a'],
        '\u{a733}' => seq!['a', 'a'],
        '\u{00e6}' | '\u{01fd}' | '\u{01e3}' => seq!['a', 'e'],
        '\u{a735}' => seq!['a', 'o'],
        '\u{a737}' => seq!['a', 'u'],
        '\u{a739}' | '\u{a73b}' => seq!['a', 'v'],
        '\u{a73d}' => seq!['a', 'y'],
        '\u{24d1}' | '\u{ff42}' | '\u{1e03}' | '\u{1e05}' | '\u{1e07}' | '\u{0180}' | '\u{0183}'
        | '\u{0253}' | '\u{0182}' => seq!['b'],
        '\u{ff43}' | '\u{24d2}' | '\u{0107}' | '\u{0109}' | '\u{010b}' | '\u{010d}' | '\u{00e7}'
        | '\u{1e09}' | '\u{0188}' | '\u{023c}' | '\u{a73f}' | '\u{2184}' => seq!['c'],
        '\u{24d3}' | '\u{ff44}' | '\u{1e0b}' | '\u{010f}' | '\u{1e0d}' | '\u{1e11}' | '\u{1e13}'
        | '\u{1e0f}' | '\u{0111}' | '\u{018c}' | '\u{0256}' | '\u{0257}' | '\u{018b}'
        | '\u{13e7}' | '\u{0501}' | '\u{a7aa}' => seq!['d'],
        '\u{00f0}' => seq!['d', 'h'],
        '\u{01f3}' | '\u{01c6}' => seq!['d', 'z'],
        '\u{24d4}' | '\u{ff45}' | '\u{00e8}' | '\u{00e9}' | '\u{00ea}' | '\u{1ec1}' | '\u{1ebf}'
        | '\u{1ec5}' | '\u{1ec3}' | '\u{1ebd}' | '\u{0113}' | '\u{1e15}' | '\u{1e17}'
        | '\u{0115}' | '\u{0117}' | '\u{00eb}' | '\u{1ebb}' | '\u{011b}' | '\u{0205}'
        | '\u{0207}' | '\u{1eb9}' | '\u{1ec7}' | '\u{0229}' | '\u{1e1d}' | '\u{0119}'
        | '\u{1e19}' | '\u{1e1b}' | '\u{0247}' | '\u{01dd}' => seq!['e'],
        '\u{24d5}' | '\u{ff46}' | '\u{1e1f}' | '\u{0192}' => seq!['f'],
        '\u{fb00}' => seq!['f', 'f'],
        '\u{fb01}' => seq!['f', 'i'],
        '\u{fb02}' => seq!['f', 'l'],
        '\u{fb03}' => seq!['f', 'f', 'i'],
        '\u{fb04}' => seq!['f', 'f', 'l'],
        '\u{24d6}' | '\u{ff47}' | '\u{01f5}' | '\u{011d}' | '\u{1e21}' | '\u{011f}' | '\u{0121}'
        | '\u{01e7}' | '\u{0123}' | '\u{01e5}' | '\u{0260}' | '\u{a7a1}' | '\u{a77f}'
        | '\u{1d79}' => seq!['g'],
        '\u{24d7}' | '\u{ff48}' | '\u{0125}' | '\u{1e23}' | '\u{1e27}' | '\u{021f}' | '\u{1e25}'
        | '\u{1e29}' | '\u{1e2b}' | '\u{1e96}' | '\u{0127}' | '\u{2c68}' | '\u{2c76}'
        | '\u{0265}' => seq!['h'],
        '\u{0195}' => seq!['h', 'v'],
        '\u{24d8}' | '\u{ff49}' | '\u{00ec}' | '\u{00ed}' | '\u{00ee}' | '\u{0129}' | '\u{012b}'
        | '\u{012d}' | '\u{00ef}' | '\u{1e2f}' | '\u{1ec9}' | '\u{01d0}' | '\u{0209}'
        | '\u{020b}' | '\u{1ecb}' | '\u{012f}' | '\u{1e2d}' | '\u{0268}' | '\u{0131}' => seq!['i'],
        '\u{24d9}' | '\u{ff4a}' | '\u{0135}' | '\u{01f0}' | '\u{0249}' => seq!['j'],
        '\u{24da}' | '\u{ff4b}' | '\u{1e31}' | '\u{01e9}' | '\u{1e33}' | '\u{0137}' | '\u{1e35}'
        | '\u{0199}' | '\u{2c6a}' | '\u{a741}' | '\u{a743}' | '\u{a745}' | '\u{a7a3}' => seq!['k'],
        '\u{24db}' | '\u{ff4c}' | '\u{0140}' | '\u{013a}' | '\u{013e}' | '\u{1e37}' | '\u{1e39}'
        | '\u{013c}' | '\u{1e3d}' | '\u{1e3b}' | '\u{017f}' | '\u{0142}' | '\u{019a}'
        | '\u{026b}' | '\u{2c61}' | '\u{a749}' | '\u{a781}' | '\u{a747}' | '\u{026d}' => seq!['l'],
        '\u{01c9}' => seq!['l', 'j'],
        '\u{24dc}' | '\u{ff4d}' | '\u{1e3f}' | '\u{1e41}' | '\u{1e43}' | '\u{0271}' | '\u{026f}' => seq!['m'],
        '\u{24dd}' | '\u{ff4e}' | '\u{01f9}' | '\u{0144}' | '\u{00f1}' | '\u{1e45}' | '\u{0148}'
        | '\u{1e47}' | '\u{0146}' | '\u{1e4b}' | '\u{1e49}' | '\u{019e}' | '\u{0272}'
        | '\u{0149}' | '\u{a791}' | '\u{a7a5}' | '\u{043b}' | '\u{0509}' => seq!['n'],
        '\u{01cc}' => seq!['n', 'j'],
        '\u{24de}' | '\u{ff4f}' | '\u{00f2}' | '\u{00f3}' | '\u{00f4}' | '\u{1ed3}' | '\u{1ed1}'
        | '\u{1ed7}' | '\u{1ed5}' | '\u{00f5}' | '\u{1e4d}' | '\u{022d}' | '\u{1e4f}'
        | '\u{014d}' | '\u{1e51}' | '\u{1e53}' | '\u{014f}' | '\u{022f}' | '\u{0231}'
        | '\u{00f6}' | '\u{022b}' | '\u{1ecf}' | '\u{0151}' | '\u{01d2}' | '\u{020d}'
        | '\u{020f}' | '\u{01a1}' | '\u{1edd}' | '\u{1edb}' | '\u{1ee1}' | '\u{1edf}'
        | '\u{1ee3}' | '\u{1ecd}' | '\u{1ed9}' | '\u{01eb}' | '\u{01ed}' | '\u{00f8}'
        | '\u{01ff}' | '\u{a74b}' | '\u{a74d}' | '\u{0275}' | '\u{0254}' | '\u{1d11}' => seq!['o'],
        '\u{0153}' => seq!['o', 'e'],
        '\u{01a3}' => seq!['o', 'i'],
        '\u{a74f}' => seq!['o', 'o'],
        '\u{0223}' => seq!['o', 'u'],
        '\u{24df}' | '\u{ff50}' | '\u{1e55}' | '\u{1e57}' | '\u{01a5}' | '\u{1d7d}' | '\u{a751}'
        | '\u{a753}' | '\u{a755}' | '\u{03c1}' => seq!['p'],
        '\u{24e0}' | '\u{ff51}' | '\u{024b}' | '\u{a757}' | '\u{a759}' => seq!['q'],
        '\u{24e1}' | '\u{ff52}' | '\u{0155}' | '\u{1e59}' | '\u{0159}' | '\u{0211}' | '\u{0213}'
        | '\u{1e5b}' | '\u{1e5d}' | '\u{0157}' | '\u{1e5f}' | '\u{024d}' | '\u{027d}'
        | '\u{a75b}' | '\u{a7a7}' | '\u{a783}' => seq!['r'],
        '\u{24e2}' | '\u{ff53}' | '\u{015b}' | '\u{1e65}' | '\u{015d}' | '\u{1e61}' | '\u{0161}'
        | '\u{1e67}' | '\u{1e63}' | '\u{1e69}' | '\u{0219}' | '\u{015f}' | '\u{023f}'
        | '\u{a7a9}' | '\u{a785}' | '\u{1e9b}' | '\u{0282}' => seq!['s'],
        '\u{00df}' => seq!['s', 's'],
        '\u{24e3}' | '\u{ff54}' | '\u{1e6b}' | '\u{1e97}' | '\u{0165}' | '\u{1e6d}' | '\u{021b}'
        | '\u{0163}' | '\u{1e71}' | '\u{1e6f}' | '\u{0167}' | '\u{01ad}' | '\u{0288}'
        | '\u{2c66}' | '\u{a787}' => seq!['t'],
        '\u{00fe}' => seq!['t', 'h'],
        '\u{a729}' => seq!['t', 'z'],
        '\u{24e4}' | '\u{ff55}' | '\u{00f9}' | '\u{00fa}' | '\u{00fb}' | '\u{0169}' | '\u{1e79}'
        | '\u{016b}' | '\u{1e7b}' | '\u{016d}' | '\u{00fc}' | '\u{01dc}' | '\u{01d8}'
        | '\u{01d6}' | '\u{01da}' | '\u{1ee7}' | '\u{016f}' | '\u{0171}' | '\u{01d4}'
        | '\u{0215}' | '\u{0217}' | '\u{01b0}' | '\u{1eeb}' | '\u{1ee9}' | '\u{1eef}'
        | '\u{1eed}' | '\u{1ef1}' | '\u{1ee5}' | '\u{1e73}' | '\u{0173}' | '\u{1e77}'
        | '\u{1e75}' | '\u{0289}' => seq!['u'],
        '\u{24e5}' | '\u{ff56}' | '\u{1e7d}' | '\u{1e7f}' | '\u{028b}' | '\u{a75f}' | '\u{028c}' => seq!['v'],
        '\u{a761}' => seq!['v', 'y'],
        '\u{24e6}' | '\u{ff57}' | '\u{1e81}' | '\u{1e83}' | '\u{0175}' | '\u{1e87}' | '\u{1e85}'
        | '\u{1e98}' | '\u{1e89}' | '\u{2c73}' => seq!['w'],
        '\u{24e7}' | '\u{ff58}' | '\u{1e8b}' | '\u{1e8d}' => seq!['x'],
        '\u{24e8}' | '\u{ff59}' | '\u{1ef3}' | '\u{00fd}' | '\u{0177}' | '\u{1ef9}' | '\u{0233}'
        | '\u{1e8f}' | '\u{00ff}' | '\u{1ef7}' | '\u{1e99}' | '\u{1ef5}' | '\u{01b4}'
        | '\u{024f}' | '\u{1eff}' => seq!['y'],
        '\u{24e9}' | '\u{ff5a}' | '\u{017a}' | '\u{1e91}' | '\u{017c}' | '\u{017e}' | '\u{1e93}'
        | '\u{1e95}' | '\u{01b6}' | '\u{0225}' | '\u{0240}' | '\u{2c6c}' | '\u{a763}' => seq!['z'],
        _ => seq![c],
    }
}

/// Appends the fold of `c` to `out`.
#[verifier::rlimit(100)]
pub fn push_folded(out: &mut Vec<char>, c: char)
    ensures
        final(out)@ =~= old(out)@ + fold_char(c),
{
    match c {
        '\u{00a0}' => {
            out.push(' ');
        },
        '\u{07c0}' => {
            out.push('0');
        },
        '\u{24b6}' | '\u{ff21}' | '\u{00c0}' | '\u{00c1}' | '\u{00c2}' | '\u{1ea6}' | '\u{1ea4}'
        | '\u{1eaa}' | '\u{1ea8}' | '\u{00c3}' | '\u{0100}' | '\u{0102}' | '\u{1eb0}'
        | '\u{1eae}' | '\u{1eb4}' | '\u{1eb2}' | '\u{0226}' | '\u{01e0}' | '\u{00c4}'
        | '\u{01de}' | '\u{1ea2}' | '\u{00c5}' | '\u{01fa}' | '\u{01cd}' | '\u{0200}'
        | '\u{0202}' | '\u{1ea0}' | '\u{1eac}' | '\u{1eb6}' | '\u{1e00}' | '\u{0104}'
        | '\u{023a}' | '\u{2c6f}' => {
            out.push('A');
        },
        '\u{a732}' => {
            out.push('A'); out.push('A');
        },
        '\u{00c6}' | '\u{01fc}' | '\u{01e2}' => {
            out.push('A'); out.push('E');
        },
        '\u{a734}' => {
            out.push('A'); out.push('O');
        },
        '\u{a736}' => {
            out.push('A'); out.push('U');
        },
        '\u{a738}' | '\u{a73a}' => {
            out.push('A'); out.push('V');
        },
        '\u{a73c}' => {
            out.push('A'); out.push('Y');
        },
        '\u{24b7}' | '\u{ff22}' | '\u{1e02}' | '\u{1e04}' | '\u{1e06}' | '\u{0243}' | '\u{0181}' => {
            out.push('B');
        },
        '\u{24b8}' | '\u{ff23}' | '\u{a73e}' | '\u{1e08}' | '\u{0106}' | '\u{0043}' | '\u{0108}'
        | '\u{010a}' | '\u{010c}' | '\u{00c7}' | '\u{0187}' | '\u{023b}' => {
            out.push('C');
        },
        '\u{24b9}' | '\u{ff24}' | '\u{1e0a}' | '\u{010e}' | '\u{1e0c}' | '\u{1e10}' | '\u{1e12}'
        | '\u{1e0e}' | '\u{0110}' | '\u{018a}' | '\u{0189}' | '\u{1d05}' | '\u{a779}' => {
            out.push('D');
        },
        '\u{00d0}' => {
            out.push('D'); out.push('h');
        },
        '\u{01f1}' | '\u{01c4}' => {
            out.push('D'); out.push('Z');
        },
        '\u{01f2}' | '\u{01c5}' => {
            out.push('D'); out.push('z');
        },
        '\u{025b}' | '\u{24ba}' | '\u{ff25}' | '\u{00c8}' | '\u{00c9}' | '\u{00ca}' | '\u{1ec0}'
        | '\u{1ebe}' | '\u{1ec4}' | '\u{1ec2}' | '\u{1ebc}' | '\u{0112}' | '\u{1e14}'
        | '\u{1e16}' | '\u{0114}' | '\u{0116}' | '\u{00cb}' | '\u{1eba}' | '\u{011a}'
        | '\u{0204}' | '\u{0206}' | '\u{1eb8}' | '\u{1ec6}' | '\u{0228}' | '\u{1e1c}'
        | '\u{0118}' | '\u{1e18}' | '\u{1e1a}' | '\u{0190}' | '\u{018e}' | '\u{1d07}' => {
            out.push('E');
        },
        '\u{a77c}' | '\u{24bb}' | '\u{ff26}' | '\u{1e1e}' | '\u{0191}' | '\u{a77b}' => {
            out.push('F');
        },
        '\u{24bc}' | '\u{ff27}' | '\u{01f4}' | '\u{011c}' | '\u{1e20}' | '\u{011e}' | '\u{0120}'
        | '\u{01e6}' | '\u{0122}' | '\u{01e4}' | '\u{0193}' | '\u{a7a0}' | '\u{a77d}'
        | '\u{a77e}' | '\u{0262}' => {
            out.push('G');
        },
        '\u{24bd}' | '\u{ff28}' | '\u{0124}' | '\u{1e22}' | '\u{1e26}' | '\u{021e}' | '\u{1e24}'
        | '\u{1e28}' | '\u{1e2a}' | '\u{0126}' | '\u{2c67}' | '\u{2c75}' | '\u{a78d}' => {
            out.push('H');
        },
        '\u{24be}' | '\u{ff29}' | '\u{00cc}' | '\u{00cd}' | '\u{00ce}' | '\u{0128}' | '\u{012a}'
        | '\u{012c}' | '\u{0130}' | '\u{00cf}' | '\u{1e2e}' | '\u{1ec8}' | '\u{01cf}'
        | '\u{0208}' | '\u{020a}' | '\u{1eca}' | '\u{012e}' | '\u{1e2c}' | '\u{0197}' => {
            out.push('I');
        },
        '\u{24bf}' | '\u{ff2a}' | '\u{0134}' | '\u{0248}' | '\u{0237}' => {
            out.push('J');
        },
        '\u{24c0}' | '\u{ff2b}' | '\u{1e30}' | '\u{01e8}' | '\u{1e32}' | '\u{0136}' | '\u{1e34}'
        | '\u{0198}' | '\u{2c69}' | '\u{a740}' | '\u{a742}' | '\u{a744}' | '\u{a7a2}' => {
            out.push('K');
        },
        '\u{24c1}' | '\u{ff2c}' | '\u{013f}' | '\u{0139}' | '\u{013d}' | '\u{1e36}' | '\u{1e38}'
        | '\u{013b}' | '\u{1e3c}' | '\u{1e3a}' | '\u{0141}' | '\u{023d}' | '\u{2c62}'
        | '\u{2c60}' | '\u{a748}' | '\u{a746}' | '\u{a780}' => {
            out.push('L');
        },
        '\u{01c7}' => {
            out.push('L'); out.push('J');
        },
        '\u{01c8}' => {
            out.push('L'); out.push('j');
        },
        '\u{24c2}' | '\u{ff2d}' | '\u{1e3e}' | '\u{1e40}' | '\u{1e42}' | '\u{2c6e}' | '\u{019c}'
        | '\u{03fb}' => {
            out.push('M');
        },
        '\u{a7a4}' | '\u{0220}' | '\u{24c3}' | '\u{ff2e}' | '\u{01f8}' | '\u{0143}' | '\u{00d1}'
        | '\u{1e44}' | '\u{0147}' | '\u{1e46}' | '\u{0145}' | '\u{1e4a}' | '\u{1e48}'
        | '\u{019d}' | '\u{a790}' | '\u{1d0e}' => {
            out.push('N');
        },
        '\u{01ca}' => {
            out.push('N'); out.push('J');
        },
        '\u{01cb}' => {
            out.push('N'); out.push('j');
        },
        '\u{24c4}' | '\u{ff2f}' | '\u{00d2}' | '\u{00d3}' | '\u{00d4}' | '\u{1ed2}' | '\u{1ed0}'
        | '\u{1ed6}' | '\u{1ed4}' | '\u{00d5}' | '\u{1e4c}' | '\u{022c}' | '\u{1e4e}'
        | '\u{014c}' | '\u{1e50}' | '\u{1e52}' | '\u{014e}' | '\u{022e}' | '\u{0230}'
        | '\u{00d6}' | '\u{022a}' | '\u{1ece}' | '\u{0150}' | '\u{01d1}' | '\u{020c}'
        | '\u{020e}' | '\u{01a0}' | '\u{1edc}' | '\u{1eda}' | '\u{1ee0}' | '\u{1ede}'
        | '\u{1ee2}' | '\u{1ecc}' | '\u{1ed8}' | '\u{01ea}' | '\u{01ec}' | '\u{00d8}'
        | '\u{01fe}' | '\u{0186}' | '\u{019f}' | '\u{a74a}' | '\u{a74c}' => {
            out.push('O');
        },
        '\u{0152}' => {
            out.push('O'); out.push('E');
        },
        '\u{01a2}' => {
            out.push('O'); out.push('I');
        },
        '\u{a74e}' => {
            out.push('O'); out.push('O');
        },
        '\u{0222}' => {
            out.push('O'); out.push('U');
        },
        '\u{24c5}' | '\u{ff30}' | '\u{1e54}' | '\u{1e56}' | '\u{01a4}' | '\u{2c63}' | '\u{a750}'
        | '\u{a752}' | '\u{a754}' => {
            out.push('P');
        },
        '\u{24c6}' | '\u{ff31}' | '\u{a756}' | '\u{a758}' | '\u{024a}' => {
            out.push('Q');
        },
        '\u{24c7}' | '\u{ff32}' | '\u{0154}' | '\u{1e58}' | '\u{0158}' | '\u{0210}' | '\u{0212}'
        | '\u{1e5a}' | '\u{1e5c}' | '\u{0156}' | '\u{1e5e}' | '\u{024c}' | '\u{2c64}'
        | '\u{a75a}' | '\u{a7a6}' | '\u{a782}' => {
            out.push('R');
        },
        '\u{24c8}' | '\u{ff33}' | '\u{1e9e}' | '\u{015a}' | '\u{1e64}' | '\u{015c}' | '\u{1e60}'
        | '\u{0160}' | '\u{1e66}' | '\u{1e62}' | '\u{1e68}' | '\u{0218}' | '\u{015e}'
        | '\u{2c7e}' | '\u{a7a8}' | '\u{a784}' => {
            out.push('S');
        },
        '\u{24c9}' | '\u{ff34}' | '\u{1e6a}' | '\u{0164}' | '\u{1e6c}' | '\u{021a}' | '\u{0162}'
        | '\u{1e70}' | '\u{1e6e}' | '\u{0166}' | '\u{01ac}' | '\u{01ae}' | '\u{023e}'
        | '\u{a786}' => {
            out.push('T');
        },
        '\u{00de}' => {
            out.push('T'); out.push('h');
        },
        '\u{a728}' => {
            out.push('T'); out.push('Z');
        },
        '\u{24ca}' | '\u{ff35}' | '\u{00d9}' | '\u{00da}' | '\u{00db}' | '\u{0168}' | '\u{1e78}'
        | '\u{016a}' | '\u{1e7a}' | '\u{016c}' | '\u{00dc}' | '\u{01db}' | '\u{01d7}'
        | '\u{01d5}' | '\u{01d9}' | '\u{1ee6}' | '\u{016e}' | '\u{0170}' | '\u{01d3}'
        | '\u{0214}' | '\u{0216}' | '\u{01af}' | '\u{1eea}' | '\u{1ee8}' | '\u{1eee}'
        | '\u{1eec}' | '\u{1ef0}' | '\u{1ee4}' | '\u{1e72}' | '\u{0172}' | '\u{1e76}'
        | '\u{1e74}' | '\u{0244}' => {
            out.push('U');
        },
        '\u{24cb}' | '\u{ff36}' | '\u{1e7c}' | '\u{1e7e}' | '\u{01b2}' | '\u{a75e}' | '\u{0245}' => {
            out.push('V');
        },
        '\u{a760}' => {
            out.push('V'); out.push('Y');
        },
        '\u{24cc}' | '\u{ff37}' | '\u{1e80}' | '\u{1e82}' | '\u{0174}' | '\u{1e86}' | '\u{1e84}'
        | '\u{1e88}' | '\u{2c72}' => {
            out.push('W');
        },
        '\u{24cd}' | '\u{ff38}' | '\u{1e8a}' | '\u{1e8c}' => {
            out.push('X');
        },
        '\u{24ce}' | '\u{ff39}' | '\u{1ef2}' | '\u{00dd}' | '\u{0176}' | '\u{1ef8}' | '\u{0232}'
        | '\u{1e8e}' | '\u{0178}' | '\u{1ef6}' | '\u{1ef4}' | '\u{01b3}' | '\u{024e}'
        | '\u{1efe}' => {
            out.push('Y');
        },
        '\u{24cf}' | '\u{ff3a}' | '\u{0179}' | '\u{1e90}' | '\u{017b}' | '\u{017d}' | '\u{1e92}'
        | '\u{1e94}' | '\u{01b5}' | '\u{0224}' | '\u{2c7f}' | '\u{2c6b}' | '\u{a762}' => {
            out.push('Z');
        },
        '\u{24d0}' | '\u{ff41}' | '\u{1e9a}' | '\u{00e0}' | '\u{00e1}' | '\u{00e2}' | '\u{1ea7}'
        | '\u{1ea5}' | '\u{1eab}' | '\u{1ea9}' | '\u{00e3}' | '\u{0101}' | '\u{0103}'
        | '\u{1eb1}' | '\u{1eaf}' | '\u{1eb5}' | '\u{1eb3}' | '\u{0227}' | '\u{01e1}'
        | '\u{00e4}' | '\u{01df}' | '\u{1ea3}' | '\u{00e5}' | '\u{01fb}' | '\u{01ce}'
        | '\u{0201}' | '\u{0203}' | '\u{1ea1}' | '\u{1ead}' | '\u{1eb7}' | '\u{1e01}'
        | '\u{0105}' | '\u{2c65}' | '\u{0250}' | '\u{0251}' => {
            out.push('a');
        },
        '\u{a733}' => {
            out.push('a'); out.push('a');
        },
        '\u{00e6}' | '\u{01fd}' | '\u{01e3}' => {
            out.push('a'); out.push('e');
        },
        '\u{a735}' => {
            out.push('a'); out.push('o');
        },
        '\u{a737}' => {
            out.push('a'); out.push('u');
        },
        '\u{a739}' | '\u{a73b}' => {
            out.push('a'); out.push('v');
        },
        '\u{a73d}' => {
            out.push('a'); out.push('y');
        },
        '\u{24d1}' | '\u{ff42}' | '\u{1e03}' | '\u{1e05}' | '\u{1e07}' | '\u{0180}' | '\u{0183}'
        | '\u{0253}' | '\u{0182}' => {
            out.push('b');
        },
        '\u{ff43}' | '\u{24d2}' | '\u{0107}' | '\u{0109}' | '\u{010b}' | '\u{010d}' | '\u{00e7}'
        | '\u{1e09}' | '\u{0188}' | '\u{023c}' | '\u{a73f}' | '\u{2184}' => {
            out.push('c');
        },
        '\u{24d3}' | '\u{ff44}' | '\u{1e0b}' | '\u{010f}' | '\u{1e0d}' | '\u{1e11}' | '\u{1e13}'
        | '\u{1e0f}' | '\u{0111}' | '\u{018c}' | '\u{0256}' | '\u{0257}' | '\u{018b}'
        | '\u{13e7}' | '\u{0501}' | '\u{a7aa}' => {
            out.push('d');
        },
        '\u{00f0}' => {
            out.push('d'); out.push('h');
        },
        '\u{01f3}' | '\u{01c6}' => {
            out.push('d'); out.push('z');
        },
        '\u{24d4}' | '\u{ff45}' | '\u{00e8}' | '\u{00e9}' | '\u{00ea}' | '\u{1ec1}' | '\u{1ebf}'
        | '\u{1ec5}' | '\u{1ec3}' | '\u{1ebd}' | '\u{0113}' | '\u{1e15}' | '\u{1e17}'
        | '\u{0115}' | '\u{0117}' | '\u{00eb}' | '\u{1ebb}' | '\u{011b}' | '\u{0205}'
        | '\u{0207}' | '\u{1eb9}' | '\u{1ec7}' | '\u{0229}' | '\u{1e1d}' | '\u{0119}'
        | '\u{1e19}' | '\u{1e1b}' | '\u{0247}' | '\u{01dd}' => {
            out.push('e');
        },
        '\u{24d5}' | '\u{ff46}' | '\u{1e1f}' | '\u{0192}' => {
            out.push('f');
        },
        '\u{fb00}' => {
            out.push('f'); out.push('f');
        },
        '\u{fb01}' => {
            out.push('f'); out.push('i');
        },
        '\u{fb02}' => {
            out.push('f'); out.push('l');
        },
        '\u{fb03}' => {
            out.push('f'); out.push('f'); out.push('i');
        },
        '\u{fb04}' => {
            out.push('f'); out.push('f'); out.push('l');
        },
        '\u{24d6}' | '\u{ff47}' | '\u{01f5}' | '\u{011d}' | '\u{1e21}' | '\u{011f}' | '\u{0121}'
        | '\u{01e7}' | '\u{0123}' | '\u{01e5}' | '\u{0260}' | '\u{a7a1}' | '\u{a77f}'
        | '\u{1d79}' => {
            out.push('g');
        },
        '\u{24d7}' | '\u{ff48}' | '\u{0125}' | '\u{1e23}' | '\u{1e27}' | '\u{021f}' | '\u{1e25}'
        | '\u{1e29}' | '\u{1e2b}' | '\u{1e96}' | '\u{0127}' | '\u{2c68}' | '\u{2c76}'
        | '\u{0265}' => {
            out.push('h');
        },
        '\u{0195}' => {
            out.push('h'); out.push('v');
        },
        '\u{24d8}' | '\u{ff49}' | '\u{00ec}' | '\u{00ed}' | '\u{00ee}' | '\u{0129}' | '\u{012b}'
        | '\u{012d}' | '\u{00ef}' | '\u{1e2f}' | '\u{1ec9}' | '\u{01d0}' | '\u{0209}'
        | '\u{020b}' | '\u{1ecb}' | '\u{012f}' | '\u{1e2d}' | '\u{0268}' | '\u{0131}' => {
            out.push('i');
        },
        '\u{24d9}' | '\u{ff4a}' | '\u{0135}' | '\u{01f0}' | '\u{0249}' => {
            out.push('j');
        },
        '\u{24da}' | '\u{ff4b}' | '\u{1e31}' | '\u{01e9}' | '\u{1e33}' | '\u{0137}' | '\u{1e35}'
        | '\u{0199}' | '\u{2c6a}' | '\u{a741}' | '\u{a743}' | '\u{a745}' | '\u{a7a3}' => {
            out.push('k');
        },
        '\u{24db}' | '\u{ff4c}' | '\u{0140}' | '\u{013a}' | '\u{013e}' | '\u{1e37}' | '\u{1e39}'
        | '\u{013c}' | '\u{1e3d}' | '\u{1e3b}' | '\u{017f}' | '\u{0142}' | '\u{019a}'
        | '\u{026b}' | '\u{2c61}' | '\u{a749}' | '\u{a781}' | '\u{a747}' | '\u{026d}' => {
            out.push('l');
        },
        '\u{01c9}' => {
            out.push('l'); out.push('j');
        },
        '\u{24dc}' | '\u{ff4d}' | '\u{1e3f}' | '\u{1e41}' | '\u{1e43}' | '\u{0271}' | '\u{026f}' => {
            out.push('m');
        },
        '\u{24dd}' | '\u{ff4e}' | '\u{01f9}' | '\u{0144}' | '\u{00f1}' | '\u{1e45}' | '\u{0148}'
        | '\u{1e47}' | '\u{0146}' | '\u{1e4b}' | '\u{1e49}' | '\u{019e}' | '\u{0272}'
        | '\u{0149}' | '\u{a791}' | '\u{a7a5}' | '\u{043b}' | '\u{0509}' => {
            out.push('n');
        },
        '\u{01cc}' => {
            out.push('n'); out.push('j');
        },
        '\u{24de}' | '\u{ff4f}' | '\u{00f2}' | '\u{00f3}' | '\u{00f4}' | '\u{1ed3}' | '\u{1ed1}'
        | '\u{1ed7}' | '\u{1ed5}' | '\u{00f5}' | '\u{1e4d}' | '\u{022d}' | '\u{1e4f}'
        | '\u{014d}' | '\u{1e51}' | '\u{1e53}' | '\u{014f}' | '\u{022f}' | '\u{0231}'
        | '\u{00f6}' | '\u{022b}' | '\u{1ecf}' | '\u{0151}' | '\u{01d2}' | '\u{020d}'
        | '\u{020f}' | '\u{01a1}' | '\u{1edd}' | '\u{1edb}' | '\u{1ee1}' | '\u{1edf}'
        | '\u{1ee3}' | '\u{1ecd}' | '\u{1ed9}' | '\u{01eb}' | '\u{01ed}' | '\u{00f8}'
        | '\u{01ff}' | '\u{a74b}' | '\u{a74d}' | '\u{0275}' | '\u{0254}' | '\u{1d11}' => {
            out.push('o');
        },
        '\u{0153}' => {
            out.push('o'); out.push('e');
        },
        '\u{01a3}' => {
            out.push('o'); out.push('i');
        },
        '\u{a74f}' => {
            out.push('o'); out.push('o');
        },
        '\u{0223}' => {
            out.push('o'); out.push('u');
        },
        '\u{24df}' | '\u{ff50}' | '\u{1e55}' | '\u{1e57}' | '\u{01a5}' | '\u{1d7d}' | '\u{a751}'
        | '\u{a753}' | '\u{a755}' | '\u{03c1}' => {
            out.push('p');
        },
        '\u{24e0}' | '\u{ff51}' | '\u{024b}' | '\u{a757}' | '\u{a759}' => {
            out.push('q');
        },
        '\u{24e1}' | '\u{ff52}' | '\u{0155}' | '\u{1e59}' | '\u{0159}' | '\u{0211}' | '\u{0213}'
        | '\u{1e5b}' | '\u{1e5d}' | '\u{0157}' | '\u{1e5f}' | '\u{024d}' | '\u{027d}'
        | '\u{a75b}' | '\u{a7a7}' | '\u{a783}' => {
            out.push('r');
        },
        '\u{24e2}' | '\u{ff53}' | '\u{015b}' | '\u{1e65}' | '\u{015d}' | '\u{1e61}' | '\u{0161}'
        | '\u{1e67}' | '\u{1e63}' | '\u{1e69}' | '\u{0219}' | '\u{015f}' | '\u{023f}'
        | '\u{a7a9}' | '\u{a785}' | '\u{1e9b}' | '\u{0282}' => {
            out.push('s');
        },
        '\u{00df}' => {
            out.push('s'); out.push('s');
        },
        '\u{24e3}' | '\u{ff54}' | '\u{1e6b}' | '\u{1e97}' | '\u{0165}' | '\u{1e6d}' | '\u{021b}'
        | '\u{0163}' | '\u{1e71}' | '\u{1e6f}' | '\u{0167}' | '\u{01ad}' | '\u{0288}'
        | '\u{2c66}' | '\u{a787}' => {
            out.push('t');
        },
        '\u{00fe}' => {
            out.push('t'); out.push('h');
        },
        '\u{a729}' => {
            out.push('t'); out.push('z');
        },
        '\u{24e4}' | '\u{ff55}' | '\u{00f9}' | '\u{00fa}' | '\u{00fb}' | '\u{0169}' | '\u{1e79}'
        | '\u{016b}' | '\u{1e7b}' | '\u{016d}' | '\u{00fc}' | '\u{01dc}' | '\u{01d8}'
        | '\u{01d6}' | '\u{01da}' | '\u{1ee7}' | '\u{016f}' | '\u{0171}' | '\u{01d4}'
        | '\u{0215}' | '\u{0217}' | '\u{01b0}' | '\u{1eeb}' | '\u{1ee9}' | '\u{1eef}'
        | '\u{1eed}' | '\u{1ef1}' | '\u{1ee5}' | '\u{1e73}' | '\u{0173}' | '\u{1e77}'
        | '\u{1e75}' | '\u{0289}' => {
            out.push('u');
        },
        '\u{24e5}' | '\u{ff56}' | '\u{1e7d}' | '\u{1e7f}' | '\u{028b}' | '\u{a75f}' | '\u{028c}' => {
            out.push('v');
        },
        '\u{a761}' => {
            out.push('v'); out.push('y');
        },
        '\u{24e6}' | '\u{ff57}' | '\u{1e81}' | '\u{1e83}' | '\u{0175}' | '\u{1e87}' | '\u{1e85}'
        | '\u{1e98}' | '\u{1e89}' | '\u{2c73}' => {
            out.push('w');
        },
        '\u{24e7}' | '\u{ff58}' | '\u{1e8b}' | '\u{1e8d}' => {
            out.push('x');
        },
        '\u{24e8}' | '\u{ff59}' | '\u{1ef3}' | '\u{00fd}' | '\u{0177}' | '\u{1ef9}' | '\u{0233}'
        | '\u{1e8f}' | '\u{00ff}' | '\u{1ef7}' | '\u{1e99}' | '\u{1ef5}' | '\u{01b4}'
        | '\u{024f}' | '\u{1eff}' => {
            out.push('y');
        },
        '\u{24e9}' | '\u{ff5a}' | '\u{017a}' | '\u{1e91}' | '\u{017c}' | '\u{017e}' | '\u{1e93}'
        | '\u{1e95}' | '\u{01b6}' | '\u{0225}' | '\u{0240}' | '\u{2c6c}' | '\u{a763}' => {
            out.push('z');
        },
        _ => {
            out.push(c);
        },
    }
}

} // verus!
