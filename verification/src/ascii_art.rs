//! The pictures drawn beside a device's report, one per vendor, and the
//! colours in which their symbols are painted.

use vstd::prelude::*;

verus! {

/// The number of symbols that a picture may use.
pub const LUT_SIZE: usize = 5;

/// The symbols of the pictures, in the order of a style's entries.
pub const CHARS: [char; 5] = ['#', '$', '%', '&', '@'];

/// What a painted symbol is drawn as: one blank in reverse video, then reset.
pub const BLOCK: &'static str = "\x1B[7m \x1B[0m";
pub const BLACK: &'static str = "\x1B[30m";
pub const RED: &'static str = "\x1B[31m";
pub const BRIGHT_RED: &'static str = "\x1B[91m";
pub const GREEN: &'static str = "\x1B[32m";
pub const BRIGHT_GREEN: &'static str = "\x1B[92m";
pub const YELLOW: &'static str = "\x1B[33m";
pub const BRIGHT_YELLOW: &'static str = "\x1B[93m";
pub const BLUE: &'static str = "\x1B[34m";
pub const BRIGHT_BLUE: &'static str = "\x1B[94m";
pub const CYAN: &'static str = "\x1B[36m";
pub const BRIGHT_CYAN: &'static str = "\x1B[96m";
pub const WHITE: &'static str = "\x1B[37m";
pub const BRIGHT_WHITE: &'static str = "\x1B[97m";

pub const VULKAN: [&'static str; 13] = [
    "          ################                     ",
    "      ##########################               ",
    "    #############         ##########           ",
    "   #########                     ######        ",
    "   #######     ####      ####         ####     ",
    "    #####      ####      ####            ###   ",
    "     ####       ####    ####               ##  ",
    "      ####      ####    ####                 # ",
    "        ###      ####  ####                    ",
    "          ##     ####  ####                    ",
    "                  ########                     ",
    "                  ########                     ",
    "                   ######                      ",
];

pub const APPLE: [&'static str; 15] = [
    "                          ###                  ",
    "                        ####                   ",
    "                       ####                    ",
    "              ####### ###  #######             ",
    "            ########################           ",
    "           ########################            ",
    "          #######################              ",
    "         #######################               ",
    "         #######################               ",
    "         ########################              ",
    "          #########################            ",
    "           ##########################          ",
    "             ######################            ",
    "              ###################              ",
    "                ######    #####                ",
];

pub const GOOGLE: [&'static str; 17] = [
    "                    #########                  ",
    "                #################              ",
    "              #####################            ",
    "            &#########    #######              ",
    "          &&&&#####          ##                ",
    "         &&&&&&&#                              ",
    "         &&&&&&&                               ",
    "        &&&&&&&          $$$$$$$$$$$$$$        ",
    "        &&&&&&&          $$$$$$$$$$$$$$        ",
    "        &&&&&&&          $$$$$$$$$$$$$$        ",
    "         &&&&&&&                $$$$$$$        ",
    "         &&&&&&&%              $$$$$$$         ",
    "          &&&&%%%%%          %$$$$$$$$         ",
    "            &%%%%%%%%%    %%%%%$$$$$           ",
    "              %%%%%%%%%%%%%%%%%%$$             ",
    "                %%%%%%%%%%%%%%%%%              ",
    "                    %%%%%%%%%%                 ",
];

pub const INTEL: [&'static str; 9] = [
    "   $$$                                  ###    ",
    "   $$$                                  ###    ",
    "         ## ####     ###      ######    ###    ",
    "   ###   #########   #####  ####  ####  ###    ",
    "   ###   ###    ###  ###    ###    ###  ###    ",
    "   ###   ###    ###  ###    ##########  ###    ",
    "   ###   ###    ###  ###    ###         ###    ",
    "   ###   ###    ###  ###     ########   ###    ",
    "   ###   ###    ###   #####    ####     ###    ",
];

pub const NVIDIA: [&'static str; 12] = [
    "                      #########################",
    "                ######      ###################",
    "             ###      #####      ##############",
    "          ####   #####    #####     ###########",
    "        ####   ####   #       ####   ##########",
    "      ####   ####     ###     ####    #########",
    "       ####   ####    #########     ###########",
    "         ###    ###   #####      ####   #######",
    "          #####   ####       #####      #######",
    "            #####     ########       ##########",
    "                ######          ###############",
    "                      #########################",
];

pub const AMD: [&'static str; 6] = [
    "    ###     ###      ### #########    $$$$$$$$$",
    "   #####    #####  ##### ###    ###     $$$$$$$",
    "  ### ###   ############ ###     ###   $    $$$",
    " ###   ###  ###  ##  ### ###     ###  $$    $$$",
    "########### ###      ### ###    ###  $$$$$$$ $$",
    "###     ### ###      ### #########   $$$$$    $",
];

pub const ARM: [&'static str; 6] = [
    "          ###     ########   ###      ###      ",
    "         #####    ###   ###  #####  #####      ",
    "        ### ###   ########   ############      ",
    "       ###   ###  ### ####   ###  ##  ###      ",
    "      ########### ###   ###  ###      ###      ",
    "      ###     ### ###    ### ###      ###      ",
];

pub const MICROSOFT: [&'static str; 15] = [
    "                         ",
    " ########### $$$$$$$$$$$ ",
    " ########### $$$$$$$$$$$ ",
    " ########### $$$$$$$$$$$ ",
    " ########### $$$$$$$$$$$ ",
    " ########### $$$$$$$$$$$ ",
    " ########### $$$$$$$$$$$ ",
    "                         ",
    " %%%%%%%%%%% &&&&&&&&&&& ",
    " %%%%%%%%%%% &&&&&&&&&&& ",
    " %%%%%%%%%%% &&&&&&&&&&& ",
    " %%%%%%%%%%% &&&&&&&&&&& ",
    " %%%%%%%%%%% &&&&&&&&&&& ",
    " %%%%%%%%%%% &&&&&&&&&&& ",
    "                         ",
];

pub const QUALCOMM: [&'static str; 15] = [
    "         ########         ",
    "      ##############      ",
    "    ####          ####    ",
    "  ####              ####  ",
    " ####                #### ",
    " ###                  ### ",
    "####                  ####",
    "####                  ####",
    " ###                  ### ",
    " ####          ###   #### ",
    "  ####          ### ####  ",
    "    ####         #####    ",
    "      ###############     ",
    "         ########  ###    ",
    "                    ###   ",
];

pub const VULKAN_STYLE: [&'static str; 5] = [RED, "", "", "", BLACK];

pub const VULKAN_STYLE_ALT: [&'static str; 5] = [BRIGHT_RED, "", "", "", BLACK];

pub const APPLE_STYLE: [&'static str; 5] = [WHITE, "", "", "", BLACK];

pub const APPLE_STYLE_ALT: [&'static str; 5] = [BRIGHT_WHITE, "", "", "", BLACK];

pub const GOOGLE_STYLE: [&'static str; 5] = [RED, BLUE, GREEN, YELLOW, BLACK];

pub const GOOGLE_STYLE_ALT: [&'static str; 5] = [BRIGHT_RED, BRIGHT_BLUE, BRIGHT_GREEN, BRIGHT_YELLOW, BLACK];

pub const INTEL_STYLE: [&'static str; 5] = [WHITE, CYAN, "", "", BLACK];

pub const INTEL_STYLE_ALT: [&'static str; 5] = [BRIGHT_WHITE, BRIGHT_CYAN, "", "", BLACK];

pub const NVIDIA_STYLE: [&'static str; 5] = [GREEN, "", "", "", BLACK];

pub const NVIDIA_STYLE_ALT: [&'static str; 5] = [BRIGHT_GREEN, "", "", "", BLACK];

pub const AMD_STYLE: [&'static str; 5] = [WHITE, GREEN, "", "", BLACK];

pub const AMD_STYLE_ALT: [&'static str; 5] = [BRIGHT_WHITE, BRIGHT_GREEN, "", "", BLACK];

pub const ARM_STYLE: [&'static str; 5] = [RED, "", "", "", BLACK];

pub const ARM_STYLE_ALT: [&'static str; 5] = [BRIGHT_RED, "", "", "", BLACK];

pub const MICROSOFT_STYLE: [&'static str; 5] = [RED, GREEN, BLUE, YELLOW, ""];

pub const MICROSOFT_STYLE_ALT: [&'static str; 5] = [BRIGHT_RED, BRIGHT_GREEN, BRIGHT_BLUE, BRIGHT_YELLOW, ""];

pub const QUALCOMM_STYLE: [&'static str; 5] = [BLUE, "", "", "", ""];

pub const QUALCOMM_STYLE_ALT: [&'static str; 5] = [BRIGHT_BLUE, "", "", "", ""];

} // verus!
